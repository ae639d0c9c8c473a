use traffic_light_control::http::public_entry::{
    init_history_store, record_pedestrian_count, record_vehicle_count, SQLError,
};
use traffic_light_control::sql_ops::{
    closest_label_sql, get_avg_obj_count as legacy_avg, init_sqlite_db as legacy_init, insert,
    label_insert_sql, next_label_sql, previous_label_sql, SQLInitError, SQLInsertError,
    SQLSelectError,
};
use traffic_light_control::traffic::sql_ops::{
    day_sample_from, day_targets, insert_params, purge_plan, secs_as_i64, RowOutcome,
};
use traffic_light_control::traffic::sql_ops::{
    average_from_samples, cleanup_cutoff, closest_record_sql, delete_older_sql, insert_count,
    insert_sql, next_record_sql, previous_record_sql, str_equals, table_is_listed, CleanupClock,
    DaySample, PEDESTRIAN_TABLE, VEHICLE_TABLE,
};

fn day(center: i32, prev: Option<i32>, next: Option<i32>) -> DaySample {
    DaySample { center, prev, next }
}

#[test]
fn table_whitelist() {
    assert!(table_is_listed("vehicle_fuzzy_results"));
    assert!(table_is_listed("pedestrian_fuzzy_results"));
    assert!(!table_is_listed("users"));
    assert!(!table_is_listed("vehicle_fuzzy_results "));
    assert!(!table_is_listed(""));
    assert!(str_equals("abc", "abc"));
    assert!(!str_equals("abc", "abd"));
    assert!(!str_equals("ab", "abc"));
}

#[test]
fn statements_name_the_table() {
    assert_eq!(
        insert_sql(VEHICLE_TABLE),
        "INSERT INTO vehicle_fuzzy_results (obj_count, timestamp) VALUES (?1, ?2)"
    );
    assert_eq!(
        closest_record_sql(PEDESTRIAN_TABLE),
        "SELECT rowid, obj_count, timestamp\n             FROM pedestrian_fuzzy_results\n             ORDER BY ABS(timestamp - ?1) ASC\n             LIMIT 1"
    );
    assert_eq!(
        previous_record_sql(PEDESTRIAN_TABLE),
        "SELECT obj_count FROM pedestrian_fuzzy_results WHERE rowid < ?1 ORDER BY rowid DESC LIMIT 1"
    );
    assert_eq!(
        next_record_sql(VEHICLE_TABLE),
        "SELECT obj_count FROM vehicle_fuzzy_results WHERE rowid > ?1 ORDER BY rowid ASC LIMIT 1"
    );
    assert_eq!(
        delete_older_sql(VEHICLE_TABLE),
        "DELETE FROM vehicle_fuzzy_results WHERE timestamp < ?1"
    );
}

#[test]
fn unlisted_table_is_refused() {
    match insert_count("users", 3).0 {
        Err(SQLError::InvalidTable(t)) => assert_eq!(t, "users"),
        other => panic!("unexpected {:?}", other),
    }
    let mut clock = CleanupClock::new(1_000);
    match traffic_light_control::traffic::sql_ops::get_avg_obj_count("users", &mut clock).0 {
        Err(SQLError::InvalidTable(t)) => assert_eq!(t, "users"),
        other => panic!("unexpected {:?}", other),
    }
    assert_eq!(clock.last_cleanup_secs, 1_000);
}

#[test]
fn negative_count_is_refused() {
    assert!(matches!(record_pedestrian_count(-1).0, Err(SQLError::EmptyFuzzyResult)));
    assert!(matches!(record_vehicle_count(i32::MIN).0, Err(SQLError::EmptyFuzzyResult)));
    assert!(matches!(insert_count(VEHICLE_TABLE, -5).0, Err(SQLError::EmptyFuzzyResult)));
}

#[test]
fn unreadable_init_file_is_reported() {
    match init_history_store("missing/init.sql", None).0 {
        Err(SQLError::ReadInitFileFailed(p)) => assert_eq!(p, "missing/init.sql"),
        other => panic!("unexpected {:?}", other),
    }
}

#[test]
fn error_messages() {
    assert_eq!(SQLError::InvalidTable("users".to_string()).message(), "Invalid table name: users");
    assert_eq!(SQLError::EmptyFuzzyResult.message(), "Fuzzy result cannot be empty.");
    assert_eq!(
        SQLError::ReadInitFileFailed("init.sql".to_string()).message(),
        "Failed to read init.sql file. init.sql exists?"
    );
    assert_eq!(SQLError::DBConnectionFailed.message(), "Failed to connect to the database.");
    assert_eq!(SQLError::ExecutionFailed("boom".to_string()).message(), "SQL execution failed: boom");
}

#[test]
fn weekly_average_of_day_samples() {
    assert_eq!(average_from_samples(&vec![]), 0);
    assert_eq!(average_from_samples(&vec![day(10, Some(20), Some(30))]), 20);
    // days averaging 10 and 3.5 (a zero day is not counted): 6.75 rounds to 7
    assert_eq!(
        average_from_samples(&vec![day(10, None, None), day(0, Some(0), None), day(3, Some(4), None)]),
        7
    );
    // halves round away from zero
    assert_eq!(average_from_samples(&vec![day(2, None, None), day(3, None, None)]), 3);
    assert_eq!(average_from_samples(&vec![day(-2, None, None), day(-3, None, None)]), -3);
    // a day whose counts cancel out is skipped
    assert_eq!(average_from_samples(&vec![day(5, Some(-5), None), day(9, None, None)]), 9);
    // only zero days: no average
    assert_eq!(average_from_samples(&vec![day(0, None, Some(0))]), 0);
    // thirds: (1 + 1 + 2) / 3 = 1.333.. -> 1
    assert_eq!(average_from_samples(&vec![day(1, Some(1), Some(2))]), 1);
    assert_eq!(average_from_samples(&vec![day(i32::MAX, Some(i32::MAX), Some(i32::MAX))]), i32::MAX);
    assert_eq!(average_from_samples(&vec![day(i32::MIN, Some(i32::MIN), None)]), i32::MIN);
}

#[test]
fn weekly_average_agrees_with_float_mean() {
    let samples = vec![
        day(12, Some(15), Some(11)),
        day(7, None, Some(9)),
        day(0, None, None),
        day(21, Some(18), None),
        day(4, Some(6), Some(5)),
    ];
    let mut sum = 0.0f64;
    let mut n = 0.0f64;
    for d in &samples {
        let mut s = d.center as f64;
        let mut k = 1.0;
        if let Some(v) = d.prev { s += v as f64; k += 1.0; }
        if let Some(v) = d.next { s += v as f64; k += 1.0; }
        if s != 0.0 {
            sum += s / k;
            n += 1.0;
        }
    }
    assert_eq!(average_from_samples(&samples), (sum / n).round() as i32);
}

#[test]
fn purge_schedule() {
    let clock = CleanupClock::new(10_000);
    assert!(!clock.cleanup_due(10_000));
    assert!(!clock.cleanup_due(13_599));
    assert!(clock.cleanup_due(13_600));
    assert!(!clock.cleanup_due(9_000));
    assert_eq!(cleanup_cutoff(1_000_000), 1_000_000 - 604_800);
    assert_eq!(cleanup_cutoff(500), 0);
}

#[test]
fn label_statements_name_the_table() {
    assert_eq!(
        label_insert_sql(PEDESTRIAN_TABLE),
        "INSERT INTO pedestrian_fuzzy_results (fuzzy_result, created_at) VALUES (?1, ?2)"
    );
    assert_eq!(
        closest_label_sql(VEHICLE_TABLE),
        "SELECT rowid, object_count, created_at\n             FROM vehicle_fuzzy_results\n             ORDER BY ABS(created_at - ?1) ASC\n             LIMIT 1"
    );
    assert_eq!(
        previous_label_sql(VEHICLE_TABLE),
        "SELECT object_count FROM vehicle_fuzzy_results WHERE rowid < ?1 ORDER BY rowid DESC LIMIT 1"
    );
    assert_eq!(
        next_label_sql(PEDESTRIAN_TABLE),
        "SELECT object_count FROM pedestrian_fuzzy_results WHERE rowid > ?1 ORDER BY rowid ASC LIMIT 1"
    );
}

#[test]
fn label_insert_refusals() {
    match insert("users", "LOW").0 {
        Err(SQLInsertError::InvalidTable(t)) => assert_eq!(t, "users"),
        other => panic!("unexpected {:?}", other),
    }
    match insert("vehicle_fuzzy_results", "").0 {
        Err(SQLInsertError::EmptyFuzzyResult) => {}
        other => panic!("unexpected {:?}", other),
    }
    match legacy_avg("pedestrian").0 {
        Err(SQLSelectError::InvalidTable(t)) => assert_eq!(t, "pedestrian"),
        other => panic!("unexpected {:?}", other),
    }
}

#[test]
fn label_init_without_file_content() {
    match legacy_init("./sqheavy/init.sql", None).0 {
        Err(SQLInitError::ReadInitFileFailed(p)) => assert_eq!(p, "./sqheavy/init.sql"),
        other => panic!("unexpected {:?}", other),
    }
}

#[test]
fn label_error_messages() {
    assert_eq!(
        SQLInsertError::InvalidTable("users".to_string()).message(),
        "Invalid table name provided: users"
    );
    assert_eq!(SQLInsertError::EmptyFuzzyResult.message(), "Fuzzy result cannot be empty.");
    assert_eq!(SQLInsertError::DBConnectionFailed.message(), "Failed to connect to the database.");
    assert_eq!(
        SQLInitError::ReadInitFileFailed("x.sql".to_string()).message(),
        "Failed to read init.sql file. x.sql exists?"
    );
    assert_eq!(SQLInitError::DBConnectionFailed.message(), "Failed to connect to the database.");
}

#[test]
fn zero_days_leave_the_average_alone() {
    let base = vec![day(4, Some(6), None), day(9, None, None)];
    let mut with_zero = base.clone();
    with_zero.push(day(3, Some(-3), Some(0)));
    assert_eq!(average_from_samples(&base), average_from_samples(&with_zero));
    assert_eq!(average_from_samples(&with_zero), 7);
}

#[test]
fn constant_week_averages_to_its_value() {
    let week: Vec<DaySample> = (0..7).map(|_| day(13, None, None)).collect();
    assert_eq!(average_from_samples(&week), 13);
    let week: Vec<DaySample> = (0..3).map(|_| day(-8, None, None)).collect();
    assert_eq!(average_from_samples(&week), -8);
}

#[test]
fn week_moments_are_whole_days_back() {
    let t = day_targets(1_000_000);
    assert_eq!(t, vec![913_600, 827_200, 740_800, 654_400, 568_000, 481_600, 395_200]);
    let t = day_targets(0);
    assert_eq!(t[0], -86_400);
    assert_eq!(t[6], -7 * 86_400);
    assert_eq!(day_targets(u64::MAX)[0], i64::MAX - 86_400);
    assert_eq!(secs_as_i64(42), 42);
    assert_eq!(secs_as_i64(u64::MAX), i64::MAX);
}

#[test]
fn day_samples_from_query_answers() {
    match day_sample_from(5, RowOutcome::Row(3), RowOutcome::Row(7)) {
        Ok(d) => assert_eq!((d.center, d.prev, d.next), (5, Some(3), Some(7))),
        Err(e) => panic!("unexpected {:?}", e),
    }
    match day_sample_from(5, RowOutcome::NoRows, RowOutcome::Row(7)) {
        Ok(d) => assert_eq!((d.center, d.prev, d.next), (5, None, Some(7))),
        Err(e) => panic!("unexpected {:?}", e),
    }
    match day_sample_from(5, RowOutcome::Row(3), RowOutcome::NoRows) {
        Ok(d) => assert_eq!((d.center, d.prev, d.next), (5, Some(3), None)),
        Err(e) => panic!("unexpected {:?}", e),
    }
    let failed = RowOutcome::Failed(rusqlite::Error::InvalidQuery);
    assert!(day_sample_from(5, failed, RowOutcome::Row(7)).is_err());
    let failed = RowOutcome::Failed(rusqlite::Error::InvalidQuery);
    assert!(day_sample_from(5, RowOutcome::NoRows, failed).is_err());
}

#[test]
fn insert_binds_count_then_time() {
    assert_eq!(insert_params(12, 1_700_000_000), [12, 1_700_000_000]);
    assert_eq!(insert_params(0, u64::MAX), [0, i64::MAX]);
}

#[test]
fn purge_deletes_week_old_rows_of_both_tables() {
    let plan = purge_plan(1_000_000);
    assert_eq!(plan.len(), 2);
    assert_eq!(plan[0].0, "DELETE FROM vehicle_fuzzy_results WHERE timestamp < ?1");
    assert_eq!(plan[1].0, "DELETE FROM pedestrian_fuzzy_results WHERE timestamp < ?1");
    assert_eq!(plan[0].1, 1_000_000 - 604_800);
    assert_eq!(plan[1].1, 1_000_000 - 604_800);
    assert_eq!(purge_plan(100)[0].1, 0);
}

#[test]
fn average_stays_within_the_stored_counts() {
    let samples = vec![day(2, Some(3), None), day(9, None, Some(8)), day(4, Some(4), Some(5))];
    let avg = average_from_samples(&samples);
    assert!(2 <= avg && avg <= 9);
    assert_eq!(avg, 5);
    // one day: rows (2, then 3) -> 2.5 a day, 2.5 for the week -> 3
    let week: Vec<DaySample> = (0..7).map(|_| day(2, None, Some(3))).collect();
    assert_eq!(average_from_samples(&week), 3);
}
