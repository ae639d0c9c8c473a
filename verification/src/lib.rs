//! Traffic light control: fuzzy pedestrian-phase extension, count history,
//! and the signal-cycle controller behind the simulation front end.

pub mod config;
pub mod membership_fns;
pub mod fuzzy_inference;
pub mod traffic;
pub mod sql_ops;
pub mod sim;
pub mod http;
pub mod traffic_light;
pub mod traffic_light_sim;
pub mod text;
pub mod camera;
