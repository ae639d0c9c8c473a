//! Timing and storage configuration.
//!
//! Durations are whole milliseconds so that the controller can reason about
//! them exactly.

use vstd::prelude::*;

verus! {

/// Lower end of the extension-time range (milliseconds).
pub const T_MIN_MS: u64 = 0;

/// Upper end of the extension-time range (milliseconds).
pub const T_MAX_MS: u64 = 60_000;

/// Basic pedestrian green time of one cycle (milliseconds).
pub const PHASE_BASIC_PED_GREEN_MS: u64 = 30_000;

/// Basic vehicle green time of one cycle, blinking included (milliseconds).
pub const PHASE_BASIC_VEH_GREEN_MS: u64 = 15_000;

/// Length of the blinking tail of the pedestrian green (milliseconds).
pub const PED_GREEN_BLINKING_MS: u64 = 7_000;

/// Length of the blinking tail of the vehicle green (milliseconds).
pub const VEH_GREEN_BLINKING_MS: u64 = 10_000;

/// Vehicle yellow time (milliseconds).
pub const VEH_YELLOW_MS: u64 = 3_000;

/// All-red clearance time (milliseconds).
pub const ALL_RED_MS: u64 = 3_000;

/// Location of the count-history database.
pub const SQL_FILE_LOCATION: &'static str = "./sqheavy/db.sqlite";

} // verus!
