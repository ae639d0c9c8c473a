//! The service entry points.

pub mod public_entry;
