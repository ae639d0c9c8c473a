//! Public service entry points, gathered for the HTTP server.

use vstd::prelude::*;
pub use crate::traffic::SQLError;
use crate::traffic::sql_ops::{init_outcome_ok, AvgCalls, DbCall, avg_outcome_ok, insert_outcome_ok, CleanupClock, PEDESTRIAN_TABLE, VEHICLE_TABLE};

verus! {

/// Creates the history tables from the init file's content (`None` when it
/// could not be read).
pub fn init_history_store(init_sql_path: &str, init_sql_content: Option<String>) -> (r: (Result<(), SQLError>, Ghost<Seq<DbCall>>))
    ensures
        init_outcome_ok(init_sql_path@, init_sql_content, r.0, r.1@),
{
    crate::traffic::init_history_store(init_sql_path, init_sql_content)
}

/// Records a pedestrian count.
pub fn record_pedestrian_count(obj_count: i32) -> (r: (Result<(), SQLError>, Ghost<Seq<DbCall>>))
    ensures
        insert_outcome_ok(PEDESTRIAN_TABLE@, obj_count, r.0, r.1@),
{
    crate::traffic::record_pedestrian_count(obj_count)
}

/// Records a vehicle count.
pub fn record_vehicle_count(obj_count: i32) -> (r: (Result<(), SQLError>, Ghost<Seq<DbCall>>))
    ensures
        insert_outcome_ok(VEHICLE_TABLE@, obj_count, r.0, r.1@),
{
    crate::traffic::record_vehicle_count(obj_count)
}

/// The weekly average pedestrian count.
pub fn get_historical_pedestrian_average(clock: &mut CleanupClock) -> (r: (Result<i32, SQLError>, Ghost<AvgCalls>))
    ensures
        avg_outcome_ok(PEDESTRIAN_TABLE@, *old(clock), *final(clock), r.0, r.1@),
{
    crate::traffic::get_historical_pedestrian_average(clock)
}

/// The weekly average vehicle count.
pub fn get_historical_vehicle_average(clock: &mut CleanupClock) -> (r: (Result<i32, SQLError>, Ghost<AvgCalls>))
    ensures
        avg_outcome_ok(VEHICLE_TABLE@, *old(clock), *final(clock), r.0, r.1@),
{
    crate::traffic::get_historical_vehicle_average(clock)
}

} // verus!
