//! Count history kept in SQLite: recording counts, and the weekly average of
//! the counts recorded around the same time of day.
//!
//! The database work goes through `rusqlite` behind small trusted wrappers;
//! what the library decides around it (which table, which statement, when
//! old rows are purged, how the average is formed) is verified here.

use vstd::prelude::*;
use crate::config::SQL_FILE_LOCATION;

verus! {

#[verifier::external_type_specification]
#[verifier::external_body]
pub struct ExConnection(rusqlite::Connection);

#[verifier::external_type_specification]
#[verifier::external_body]
pub struct ExSqliteError(rusqlite::Error);

/// Why a history operation failed.
#[derive(Debug, Clone)]
pub enum SQLError {
    InvalidTable(String),
    EmptyFuzzyResult,
    ReadInitFileFailed(String),
    DBConnectionFailed,
    ExecutionFailed(String),
}

/// The text shown for an error.
pub open spec fn sql_error_text(e: SQLError) -> Seq<char> {
    match e {
        SQLError::InvalidTable(t) => "Invalid table name: "@ + t@,
        SQLError::EmptyFuzzyResult => "Fuzzy result cannot be empty."@,
        SQLError::ReadInitFileFailed(p) => "Failed to read init.sql file. "@ + p@ + " exists?"@,
        SQLError::DBConnectionFailed => "Failed to connect to the database."@,
        SQLError::ExecutionFailed(m) => "SQL execution failed: "@ + m@,
    }
}

impl SQLError {
    /// The text shown for the error.
    pub fn message(&self) -> (text: String)
        ensures
            text@ == sql_error_text(*self),
    {
        match self {
            SQLError::InvalidTable(table_name) => {
                let mut text = String::from_str("Invalid table name: ");
                text.append(table_name.as_str());
                text
            },
            SQLError::EmptyFuzzyResult => String::from_str("Fuzzy result cannot be empty."),
            SQLError::ReadInitFileFailed(path_given) => {
                let mut text = String::from_str("Failed to read init.sql file. ");
                text.append(path_given.as_str());
                text.append(" exists?");
                text
            },
            SQLError::DBConnectionFailed => String::from_str("Failed to connect to the database."),
            SQLError::ExecutionFailed(e) => {
                let mut text = String::from_str("SQL execution failed: ");
                text.append(e.as_str());
                text
            },
        }
    }
}

/// Table of vehicle counts.
pub const VEHICLE_TABLE: &'static str = "vehicle_fuzzy_results";

/// Table of pedestrian counts.
pub const PEDESTRIAN_TABLE: &'static str = "pedestrian_fuzzy_results";

/// The tables that may be named in a statement.
pub open spec fn is_listed_table(t: Seq<char>) -> bool {
    t == VEHICLE_TABLE@ || t == PEDESTRIAN_TABLE@
}

/// Whether two strings hold the same characters.
pub fn str_equals(a: &str, b: &str) -> (eq: bool)
    ensures
        eq == (a@ == b@),
{
    let n = a.unicode_len();
    if n != b.unicode_len() {
        return false;
    }
    let mut i: usize = 0;
    while i < n
        invariant
            n == a@.len(),
            n == b@.len(),
            i <= n,
            forall|j: int| 0 <= j < i ==> a@[j] == b@[j],
        decreases n - i,
    {
        if a.get_char(i) != b.get_char(i) {
            return false;
        }
        i = i + 1;
    }
    assert(a@ =~= b@);
    true
}

/// Whether a table may be named in a statement.
pub fn table_is_listed(table: &str) -> (listed: bool)
    ensures
        listed == is_listed_table(table@),
{
    str_equals(table, VEHICLE_TABLE) || str_equals(table, PEDESTRIAN_TABLE)
}

/// Statement that records a count and its time in a table.
pub fn insert_sql(table: &str) -> (sql: String)
    ensures
        sql@ == "INSERT INTO "@ + table@ + " (obj_count, timestamp) VALUES (?1, ?2)"@,
{
    let mut sql = String::from_str("INSERT INTO ");
    sql.append(table);
    sql.append(" (obj_count, timestamp) VALUES (?1, ?2)");
    sql
}

/// Statement that finds the record closest in time to a moment.
pub fn closest_record_sql(table: &str) -> (sql: String)
    ensures
        sql@ == "SELECT rowid, obj_count, timestamp\n             FROM "@ + table@
            + "\n             ORDER BY ABS(timestamp - ?1) ASC\n             LIMIT 1"@,
{
    let mut sql = String::from_str("SELECT rowid, obj_count, timestamp\n             FROM ");
    sql.append(table);
    sql.append("\n             ORDER BY ABS(timestamp - ?1) ASC\n             LIMIT 1");
    sql
}

/// Statement that finds the count recorded just before a row.
pub fn previous_record_sql(table: &str) -> (sql: String)
    ensures
        sql@ == "SELECT obj_count FROM "@ + table@ + " WHERE rowid < ?1 ORDER BY rowid DESC LIMIT 1"@,
{
    let mut sql = String::from_str("SELECT obj_count FROM ");
    sql.append(table);
    sql.append(" WHERE rowid < ?1 ORDER BY rowid DESC LIMIT 1");
    sql
}

/// Statement that finds the count recorded just after a row.
pub fn next_record_sql(table: &str) -> (sql: String)
    ensures
        sql@ == "SELECT obj_count FROM "@ + table@ + " WHERE rowid > ?1 ORDER BY rowid ASC LIMIT 1"@,
{
    let mut sql = String::from_str("SELECT obj_count FROM ");
    sql.append(table);
    sql.append(" WHERE rowid > ?1 ORDER BY rowid ASC LIMIT 1");
    sql
}

/// Statement that deletes the records older than a moment.
pub fn delete_older_sql(table: &str) -> (sql: String)
    ensures
        sql@ == "DELETE FROM "@ + table@ + " WHERE timestamp < ?1"@,
{
    let mut sql = String::from_str("DELETE FROM ");
    sql.append(table);
    sql.append(" WHERE timestamp < ?1");
    sql
}


/// The counts found for one day: the record closest to the day's moment,
/// and the records just before and after it, where there are any.
#[derive(Debug, Clone, Copy)]
pub struct DaySample {
    pub center: i32,
    pub prev: Option<i32>,
    pub next: Option<i32>,
}

pub open spec fn opt_count(c: Option<i32>) -> int {
    match c {
        Some(v) => v as int,
        None => 0,
    }
}

pub open spec fn opt_present(c: Option<i32>) -> int {
    if c is Some { 1 } else { 0 }
}

/// Sum of the counts of a day.
pub open spec fn day_sum(d: DaySample) -> int {
    d.center + opt_count(d.prev) + opt_count(d.next)
}

/// Number of counts of a day (one to three).
pub open spec fn day_len(d: DaySample) -> int {
    1 + opt_present(d.prev) + opt_present(d.next)
}

/// Six times the day's average, which is a whole number.
pub open spec fn day_sixths(d: DaySample) -> int {
    day_sum(d) * (6int / day_len(d))
}

/// Number of days with a non-zero average.
pub open spec fn counted_days(s: Seq<DaySample>) -> int
    decreases s.len(),
{
    if s.len() == 0 {
        0
    } else {
        counted_days(s.drop_last()) + if day_sum(s.last()) != 0 { 1int } else { 0int }
    }
}

/// Six times the sum of the non-zero day averages.
pub open spec fn sixths_total(s: Seq<DaySample>) -> int
    decreases s.len(),
{
    if s.len() == 0 {
        0
    } else {
        sixths_total(s.drop_last()) + if day_sum(s.last()) != 0 { day_sixths(s.last()) } else { 0 }
    }
}

/// `num / den` rounded to the nearest integer, halves away from zero.
pub open spec fn round_half_away(num: int, den: int) -> int
    recommends
        den > 0,
{
    if num >= 0 {
        (2 * num + den) / (2 * den)
    } else {
        -((-2 * num + den) / (2 * den))
    }
}

/// The weekly average: the mean of the day averages that are not zero,
/// rounded to the nearest integer (halves away from zero); 0 without such a day.
pub open spec fn weekly_average(s: Seq<DaySample>) -> int {
    if counted_days(s) == 0 {
        0
    } else {
        round_half_away(sixths_total(s), 6 * counted_days(s))
    }
}

/// A day whose counts sum to zero is not counted: adding it leaves the
/// weekly average as it was.
pub proof fn lemma_zero_day_ignored(s: Seq<DaySample>, d: DaySample)
    requires
        day_sum(d) == 0,
    ensures
        weekly_average(s.push(d)) == weekly_average(s),
{
    assert(s.push(d).drop_last() =~= s);
    assert(s.push(d).last() == d);
}

/// A week of days that all have the same non-zero average `v` (each day
/// holding only its closest record) averages to `v`.
pub proof fn lemma_constant_week_average(s: Seq<DaySample>, v: i32)
    requires
        v != 0,
        forall|i: int| 0 <= i < s.len() ==> (#[trigger] s[i]).center == v && s[i].prev is None && s[i].next is None,
    ensures
        s.len() > 0 ==> weekly_average(s) == v,
        s.len() == 0 ==> weekly_average(s) == 0,
    decreases s.len(),
{
    lemma_constant_week_totals(s, v);
    if s.len() > 0 {
        let c = s.len() as int;
        assert(round_half_away(6 * v * c, 6 * c) == v) by (nonlinear_arith)
            requires
                c >= 1,
        {
            if v >= 0 {
                assert((2 * (6 * v * c) + 6 * c) == (2 * v + 1) * (6 * c));
                assert((2 * (6 * v * c) + 6 * c) / (2 * (6 * c)) == v);
            } else {
                assert((-2 * (6 * v * c) + 6 * c) == (-2 * v + 1) * (6 * c));
                assert((-2 * (6 * v * c) + 6 * c) / (2 * (6 * c)) == -v);
            }
        }
    }
}

proof fn lemma_constant_week_totals(s: Seq<DaySample>, v: i32)
    requires
        v != 0,
        forall|i: int| 0 <= i < s.len() ==> (#[trigger] s[i]).center == v && s[i].prev is None && s[i].next is None,
    ensures
        counted_days(s) == s.len(),
        sixths_total(s) == 6 * v * s.len(),
    decreases s.len(),
{
    if s.len() > 0 {
        let t = s.drop_last();
        assert forall|i: int| 0 <= i < t.len() implies (#[trigger] t[i]).center == v && t[i].prev is None && t[i].next is None by {
            assert(t[i] == s[i]);
        }
        lemma_constant_week_totals(t, v);
        let d = s.last();
        assert(d == s[s.len() - 1]);
        assert(day_len(d) == 1);
        assert(day_sixths(d) == v * 6);
        let n = s.len() as int;
        assert(6 * v * (n - 1) + 6 * v == 6 * v * n) by (nonlinear_arith);
    }
}

/// Every count a sample holds lies between `lo` and `hi`.
pub open spec fn counts_within(s: Seq<DaySample>, lo: int, hi: int) -> bool {
    forall|i: int| 0 <= i < s.len() ==> {
        &&& lo <= (#[trigger] s[i]).center <= hi
        &&& (s[i].prev matches Some(v) ==> lo <= v <= hi)
        &&& (s[i].next matches Some(v) ==> lo <= v <= hi)
    }
}

proof fn lemma_totals_within(s: Seq<DaySample>, lo: int, hi: int)
    requires
        0 <= lo <= hi,
        counts_within(s, lo, hi),
    ensures
        6 * lo * counted_days(s) <= sixths_total(s) <= 6 * hi * counted_days(s),
        0 <= counted_days(s),
    decreases s.len(),
{
    if s.len() > 0 {
        let t = s.drop_last();
        assert forall|i: int| 0 <= i < t.len() implies {
            &&& lo <= (#[trigger] t[i]).center <= hi
            &&& (t[i].prev matches Some(v) ==> lo <= v <= hi)
            &&& (t[i].next matches Some(v) ==> lo <= v <= hi)
        } by {
            assert(t[i] == s[i]);
        }
        lemma_totals_within(t, lo, hi);
        let d = s.last();
        assert(d == s[s.len() - 1]);
        let n = day_len(d);
        lemma_day_sixths_bounded(d);
        assert(n * lo <= day_sum(d) <= n * hi) by (nonlinear_arith)
            requires
                n == 1 + opt_present(d.prev) + opt_present(d.next),
                day_sum(d) == d.center + opt_count(d.prev) + opt_count(d.next),
                lo <= d.center <= hi,
                d.prev is Some ==> lo <= opt_count(d.prev) <= hi,
                d.prev is None ==> opt_count(d.prev) == 0 && opt_present(d.prev) == 0,
                d.prev is Some ==> opt_present(d.prev) == 1,
                d.next is Some ==> lo <= opt_count(d.next) <= hi,
                d.next is None ==> opt_count(d.next) == 0 && opt_present(d.next) == 0,
                d.next is Some ==> opt_present(d.next) == 1,
        ;
        let k = 6int / n;
        assert(n * k == 6) by {
            assert(1 <= n <= 3);
            if n == 1 {
                assert(6int / 1 == 6);
            } else if n == 2 {
                assert(6int / 2 == 3);
            } else {
                assert(n == 3);
                assert(6int / 3 == 2);
            }
        }
        assert(6 * lo <= day_sum(d) * k <= 6 * hi) by (nonlinear_arith)
            requires
                n * lo <= day_sum(d) <= n * hi,
                n * k == 6,
                k > 0,
        ;
        let c = counted_days(t);
        assert(6 * lo * c + 6 * lo == 6 * lo * (c + 1)) by (nonlinear_arith);
        assert(6 * hi * c + 6 * hi == 6 * hi * (c + 1)) by (nonlinear_arith);
        if day_sum(d) != 0 {
            assert(k == 6int / day_len(d));
        } else {
            assert(0 <= 6 * lo * c) by (nonlinear_arith)
                requires
                    0 <= lo,
                    0 <= c,
            ;
        }
    }
}

/// When every stored count lies between `lo` and `hi` (counts are never
/// negative), the weekly average is 0 (no day counted) or lies between them.
pub proof fn lemma_average_within_counts(s: Seq<DaySample>, lo: int, hi: int)
    requires
        0 <= lo <= hi,
        counts_within(s, lo, hi),
    ensures
        weekly_average(s) == 0 || lo <= weekly_average(s) <= hi,
{
    lemma_totals_within(s, lo, hi);
    let c = counted_days(s);
    let t = sixths_total(s);
    if c != 0 {
        let d = 6 * c;
        assert(lo <= (2 * t + d) / (2 * d) <= hi) by (nonlinear_arith)
            requires
                c >= 1,
                d == 6 * c,
                6 * lo * c <= t <= 6 * hi * c,
                0 <= lo,
        {
            assert(2 * t + d >= lo * (2 * d));
            assert(2 * t + d < (hi + 1) * (2 * d));
        }
        assert(t >= 0) by (nonlinear_arith)
            requires
                6 * lo * c <= t,
                0 <= lo,
                c >= 1,
        ;
    }
}

proof fn lemma_day_sixths_bounded(d: DaySample)
    ensures
        6 * i32::MIN <= day_sixths(d) <= 6 * i32::MAX,
        1 <= day_len(d) <= 3,
{
    let k = 6int / day_len(d);
    assert(1 <= day_len(d) <= 3);
    if day_len(d) == 1 {
        assert(k == 6);
    } else if day_len(d) == 2 {
        assert(k == 3);
    } else {
        assert(k == 2);
    }
}

proof fn lemma_round_in_range(t: int, c: int)
    requires
        c >= 1,
        6 * c * i32::MIN <= t <= 6 * c * i32::MAX,
    ensures
        i32::MIN <= round_half_away(t, 6 * c) <= i32::MAX,
{
    let d = 6 * c;
    let m = i32::MAX as int;
    let n = i32::MIN as int;
    if t >= 0 {
        assert(0 <= (2 * t + d) / (2 * d) <= m) by (nonlinear_arith)
            requires
                d >= 6,
                0 <= t <= d * m,
                m > 0,
        {
            assert(2 * t + d < (m + 1) * (2 * d));
            assert(0 <= 2 * t + d);
        }
    } else {
        assert(0 <= (-2 * t + d) / (2 * d) <= -n) by (nonlinear_arith)
            requires
                d >= 6,
                0 < -t <= d * (-n),
                n < 0,
        {
            assert(-2 * t + d < (-n + 1) * (2 * d));
        }
    }
}

/// The weekly average of the day samples (see `weekly_average`).
pub fn average_from_samples(samples: &Vec<DaySample>) -> (avg: i32)
    ensures
        avg == weekly_average(samples@),
{
    let ghost s = samples@;
    let n = samples.len();
    let mut total: i128 = 0;
    let mut count: i128 = 0;
    for i in 0..n
        invariant
            n == s.len(),
            s == samples@,
            total == sixths_total(s.take(i as int)),
            count == counted_days(s.take(i as int)),
            0 <= count <= i,
            6 * count * i32::MIN <= total <= 6 * count * i32::MAX,
    {
        let d = samples[i];
        assert(s.take(i + 1).drop_last() =~= s.take(i as int));
        assert(s.take(i + 1).last() == d);
        proof {
            lemma_day_sixths_bounded(d);
        }
        let mut sum: i64 = d.center as i64;
        let mut len: i64 = 1;
        match d.prev {
            Some(v) => {
                sum = sum + v as i64;
                len = len + 1;
            },
            None => {},
        }
        match d.next {
            Some(v) => {
                sum = sum + v as i64;
                len = len + 1;
            },
            None => {},
        }
        assert(sum == day_sum(d) && len == day_len(d));
        if sum != 0 {
            let factor: i64 = 6 / len;
            let sixths: i128 = sum as i128 * factor as i128;
            assert(sixths == day_sixths(d));
            total = total + sixths;
            count = count + 1;
        }
    }
    assert(s.take(n as int) =~= s);
    if count == 0 {
        return 0;
    }
    let den: i128 = 6 * count;
    proof {
        lemma_round_in_range(total as int, count as int);
    }
    let rounded: i128 = if total >= 0 {
        (2 * total + den) / (2 * den)
    } else {
        -((-2 * total + den) / (2 * den))
    };
    rounded as i32
}


/// What a one-row query answered, as the contracts record it.
pub enum QueryAnswer<T> {
    Row(T),
    NoRows,
    Failed,
}

/// One call into the database as the contracts record it: what was handed
/// to it, and whether it succeeded (for a query, what it answered).
pub enum DbCall {
    Open { path: Seq<char>, ok: bool },
    Batch { sql: Seq<char>, ok: bool },
    Execute { sql: Seq<char>, params: Seq<i64>, ok: bool },
    ExecuteTextInt { sql: Seq<char>, text: Seq<char>, value: i64, ok: bool },
    QueryRecord { sql: Seq<char>, param: i64, answer: QueryAnswer<(i64, i32, i64)> },
    QueryCount { sql: Seq<char>, param: i64, answer: QueryAnswer<i32> },
}

/// What a query that reads one row gave back: the row, no row at all, or
/// another failure.
pub enum RowOutcome<T> {
    Row(T),
    NoRows,
    Failed(rusqlite::Error),
}

/// The answer of a query as the contracts record it.
pub open spec fn answer_of<T>(r: RowOutcome<T>) -> QueryAnswer<T> {
    match r {
        RowOutcome::Row(v) => QueryAnswer::Row(v),
        RowOutcome::NoRows => QueryAnswer::NoRows,
        RowOutcome::Failed(_) => QueryAnswer::Failed,
    }
}

/// Opens (creating if needed) the SQLite database at `path`
/// (`rusqlite::Connection::open`). Whether it succeeds depends on the file
/// system; the record says which path was opened and whether it succeeded.
#[verifier::external_body]
pub(crate) fn open_connection(path: &str) -> (r: (Result<rusqlite::Connection, rusqlite::Error>, Ghost<DbCall>))
    ensures
        r.1@ == (DbCall::Open { path: path@, ok: r.0 is Ok }),
{
    let c = rusqlite::Connection::open(path);
    let ok = c.is_ok();
    (c, Ghost(DbCall::Open { path: path@, ok }))
}

/// Runs a batch of statements (`rusqlite::Connection::execute_batch`).
/// The outcome depends on the database; the record says which text was run
/// and whether it succeeded.
#[verifier::external_body]
pub(crate) fn execute_batch(conn: &rusqlite::Connection, sql: &str) -> (r: (Result<(), rusqlite::Error>, Ghost<DbCall>))
    ensures
        r.1@ == (DbCall::Batch { sql: sql@, ok: r.0 is Ok }),
{
    let out = conn.execute_batch(sql);
    let ok = out.is_ok();
    (out, Ghost(DbCall::Batch { sql: sql@, ok }))
}

/// Runs one statement with integer parameters bound to `?1`, `?2`, ...
/// (`rusqlite::Connection::execute`). The outcome depends on the database;
/// the record says which statement and parameters were run and whether it
/// succeeded.
#[verifier::external_body]
pub(crate) fn execute_statement(conn: &rusqlite::Connection, sql: &str, params: &[i64]) -> (r: (Result<usize, rusqlite::Error>, Ghost<DbCall>))
    ensures
        r.1@ == (DbCall::Execute { sql: sql@, params: params@, ok: r.0 is Ok }),
{
    let out = conn.execute(sql, rusqlite::params_from_iter(params.iter()));
    let ok = out.is_ok();
    (out, Ghost(DbCall::Execute { sql: sql@, params: params@, ok }))
}

/// Runs one statement with a text parameter bound to `?1` and an integer
/// parameter bound to `?2` (`rusqlite::Connection::execute`, parameters
/// given as a pair). The outcome depends on the database; the record says
/// what was run and whether it succeeded.
#[verifier::external_body]
pub(crate) fn execute_text_and_int(conn: &rusqlite::Connection, sql: &str, text: &str, value: i64) -> (r: (Result<usize, rusqlite::Error>, Ghost<DbCall>))
    ensures
        r.1@ == (DbCall::ExecuteTextInt { sql: sql@, text: text@, value, ok: r.0 is Ok }),
{
    let out = conn.execute(sql, (text, value));
    let ok = out.is_ok();
    (out, Ghost(DbCall::ExecuteTextInt { sql: sql@, text: text@, value, ok }))
}

/// Runs a query with one integer parameter and reads the first row as
/// (rowid, count, timestamp) (`rusqlite::Connection::query_row`); the
/// error `QueryReturnedNoRows` is told apart from the others. The answer
/// depends on the database; the record says which query was run with which
/// parameter, and what it answered.
#[verifier::external_body]
pub(crate) fn query_row_record(conn: &rusqlite::Connection, sql: &str, param: i64) -> (r: (RowOutcome<(i64, i32, i64)>, Ghost<DbCall>))
    ensures
        r.1@ == (DbCall::QueryRecord { sql: sql@, param, answer: answer_of(r.0) }),
{
    let out = match conn.query_row(sql, [param], |row| Ok((row.get(0)?, row.get(1)?, row.get(2)?))) {
        Ok(v) => RowOutcome::Row(v),
        Err(rusqlite::Error::QueryReturnedNoRows) => RowOutcome::NoRows,
        Err(e) => RowOutcome::Failed(e),
    };
    let g = Ghost(DbCall::QueryRecord { sql: sql@, param, answer: answer_of(out) });
    (out, g)
}

/// Runs a query with one integer parameter and reads the first row's count
/// (`rusqlite::Connection::query_row`); the error `QueryReturnedNoRows` is
/// told apart from the others. The answer depends on the database; the
/// record says which query was run with which parameter, and what it
/// answered.
#[verifier::external_body]
pub(crate) fn query_row_count(conn: &rusqlite::Connection, sql: &str, param: i64) -> (r: (RowOutcome<i32>, Ghost<DbCall>))
    ensures
        r.1@ == (DbCall::QueryCount { sql: sql@, param, answer: answer_of(r.0) }),
{
    let out = match conn.query_row(sql, [param], |row| row.get(0)) {
        Ok(v) => RowOutcome::Row(v),
        Err(rusqlite::Error::QueryReturnedNoRows) => RowOutcome::NoRows,
        Err(e) => RowOutcome::Failed(e),
    };
    let g = Ghost(DbCall::QueryCount { sql: sql@, param, answer: answer_of(out) });
    (out, g)
}

/// The text of a database error (its `Display` form). Nothing is promised
/// of the text, since the error value is opaque here.
#[verifier::external_body]
pub(crate) fn error_text(e: &rusqlite::Error) -> (text: String) {
    e.to_string()
}

/// Seconds since the Unix epoch now (`std::time::SystemTime::now`), or 0
/// if the clock is set before the epoch. Nothing is promised: it is the time.
#[verifier::external_body]
pub fn unix_time_secs() -> (secs: u64) {
    std::time::SystemTime::now().duration_since(std::time::UNIX_EPOCH).map_or(0, |d| d.as_secs())
}

/// Opens the history database; the record says which file was opened.
fn init_connection(where_is_db_file: &str) -> (r: (Result<rusqlite::Connection, SQLError>, Ghost<DbCall>))
    ensures
        r.1@ == (DbCall::Open { path: where_is_db_file@, ok: r.0 is Ok }),
        r.0 matches Err(e) ==> e is DBConnectionFailed,
{
    let (opened, g) = open_connection(where_is_db_file);
    match opened {
        Ok(conn) => (Ok(conn), g),
        Err(_) => (Err(SQLError::DBConnectionFailed), g),
    }
}

/// The opening of the history database, and whether it worked.
pub open spec fn open_call(ok: bool) -> DbCall {
    DbCall::Open { path: SQL_FILE_LOCATION@, ok }
}

/// What creating the tables gives back and hands to the database: without
/// the file's content nothing is opened; otherwise the database file is
/// opened and, if that worked, the whole content is run as one batch. A
/// failed opening is a connection failure, a failed batch an execution
/// failure.
pub open spec fn init_outcome_ok(path: Seq<char>, content: Option<String>, r: Result<(), SQLError>, log: Seq<DbCall>) -> bool {
    match content {
        None => (r matches Err(SQLError::ReadInitFileFailed(p)) && p@ == path) && log.len() == 0,
        Some(c) => {
            ||| (log == Seq::empty().push(open_call(false)) && r == Err::<(), SQLError>(SQLError::DBConnectionFailed))
            ||| (log == Seq::empty().push(open_call(true)).push(DbCall::Batch { sql: c@, ok: true }) && r is Ok)
            ||| (log == Seq::empty().push(open_call(true)).push(DbCall::Batch { sql: c@, ok: false })
                && (r matches Err(SQLError::ExecutionFailed(_))))
        },
    }
}

/// Creates the history tables: runs the statements of the init file, whose
/// content the caller has read (`None` when it could not be read). Also
/// gives back the record of the calls made.
pub fn init_sqlite_db(init_sql_path: &str, init_sql_content: Option<String>) -> (r: (Result<(), SQLError>, Ghost<Seq<DbCall>>))
    ensures
        init_outcome_ok(init_sql_path@, init_sql_content, r.0, r.1@),
{
    let content = match init_sql_content {
        Some(content) => content,
        None => return (Err(SQLError::ReadInitFileFailed(String::from_str(init_sql_path))), Ghost(Seq::empty())),
    };
    let (opened, g_open) = open_connection(SQL_FILE_LOCATION);
    let conn = match opened {
        Ok(c) => c,
        Err(_) => return (Err(SQLError::DBConnectionFailed), Ghost(Seq::empty().push(g_open@))),
    };
    let (out, g_batch) = execute_batch(&conn, content.as_str());
    match out {
        Ok(_) => (Ok(()), Ghost(Seq::empty().push(g_open@).push(g_batch@))),
        Err(e) => (Err(SQLError::ExecutionFailed(error_text(&e))), Ghost(Seq::empty().push(g_open@).push(g_batch@))),
    }
}

/// The values bound to `insert_sql`'s `?1` and `?2`: the count and the time.
pub fn insert_params(obj_count: i32, now_secs: u64) -> (p: [i64; 2])
    ensures
        p@ == seq![obj_count as i64, secs_as_i64_spec(now_secs)],
{
    let p = [obj_count as i64, secs_as_i64(now_secs)];
    assert(p@ =~= seq![obj_count as i64, secs_as_i64_spec(now_secs)]);
    p
}

/// The text of `insert_sql` for a table.
pub open spec fn insert_sql_text(table: Seq<char>) -> Seq<char> {
    "INSERT INTO "@ + table + " (obj_count, timestamp) VALUES (?1, ?2)"@
}

/// The insertion of a count into a table (its time is the clock's), and
/// whether it worked.
pub open spec fn insert_call(c: DbCall, table: Seq<char>, obj_count: i32, ok: bool) -> bool {
    &&& c matches DbCall::Execute { sql, params, ok: k }
    &&& sql == insert_sql_text(table)
    &&& params.len() == 2
    &&& params[0] == obj_count as i64
    &&& k == ok
}

/// What recording a count gives back and hands to the database: an
/// unlisted table and a negative count are refused without opening it;
/// otherwise the database file is opened and, if that worked, the count
/// (with the time) is inserted into that table. A failed opening is a
/// connection failure, a failed insertion an execution failure.
pub open spec fn insert_outcome_ok(table: Seq<char>, obj_count: i32, r: Result<(), SQLError>, log: Seq<DbCall>) -> bool {
    &&& !is_listed_table(table) ==> ((r matches Err(SQLError::InvalidTable(t)) && t@ == table) && log.len() == 0)
    &&& (is_listed_table(table) && obj_count < 0) ==> (r == Err::<(), SQLError>(SQLError::EmptyFuzzyResult)
        && log.len() == 0)
    &&& (is_listed_table(table) && obj_count >= 0) ==> (
        (log == Seq::empty().push(open_call(false)) && r == Err::<(), SQLError>(SQLError::DBConnectionFailed))
        || (log.len() == 2 && log[0] == open_call(true) && insert_call(log[1], table, obj_count, true) && r is Ok)
        || (log.len() == 2 && log[0] == open_call(true) && insert_call(log[1], table, obj_count, false)
            && (r matches Err(SQLError::ExecutionFailed(_)))))
}

/// Records a count with the current time in a listed table. Also gives back
/// the record of the calls made.
pub fn insert_count(table: &str, obj_count: i32) -> (r: (Result<(), SQLError>, Ghost<Seq<DbCall>>))
    ensures
        insert_outcome_ok(table@, obj_count, r.0, r.1@),
{
    if !table_is_listed(table) {
        return (Err(SQLError::InvalidTable(String::from_str(table))), Ghost(Seq::empty()));
    }
    if obj_count < 0 {
        return (Err(SQLError::EmptyFuzzyResult), Ghost(Seq::empty()));
    }
    let (opened, g_open) = init_connection(SQL_FILE_LOCATION);
    let conn = match opened {
        Ok(c) => c,
        Err(e) => return (Err(e), Ghost(Seq::empty().push(g_open@))),
    };
    let sql = insert_sql(table);
    let params = insert_params(obj_count, unix_time_secs());
    let (out, g_exec) = execute_statement(&conn, sql.as_str(), &params);
    match out {
        Ok(_) => (Ok(()), Ghost(Seq::empty().push(g_open@).push(g_exec@))),
        Err(e) => (Err(SQLError::ExecutionFailed(error_text(&e))), Ghost(Seq::empty().push(g_open@).push(g_exec@))),
    }
}

/// Records a pedestrian count.
pub fn insert_pedestrian_count(obj_count: i32) -> (r: (Result<(), SQLError>, Ghost<Seq<DbCall>>))
    ensures
        insert_outcome_ok(PEDESTRIAN_TABLE@, obj_count, r.0, r.1@),
{
    insert_count(PEDESTRIAN_TABLE, obj_count)
}

/// Records a vehicle count.
pub fn insert_vehicle_count(obj_count: i32) -> (r: (Result<(), SQLError>, Ghost<Seq<DbCall>>))
    ensures
        insert_outcome_ok(VEHICLE_TABLE@, obj_count, r.0, r.1@),
{
    insert_count(VEHICLE_TABLE, obj_count)
}

/// Old records are purged at most once an hour.
pub const CLEANUP_INTERVAL_SECS: u64 = 3600;

/// Records older than a week are purged.
pub const RETENTION_SECS: u64 = 604_800;

/// One day in seconds.
pub const DAY_SECS: u64 = 86_400;

/// When old records were last purged (seconds since the Unix epoch).
#[derive(Debug, Clone, Copy)]
pub struct CleanupClock {
    pub last_cleanup_secs: u64,
}

/// Whether a purge is due: an hour has passed since the last one.
pub open spec fn cleanup_due_spec(last: u64, now: u64) -> bool {
    now >= last && now - last >= CLEANUP_INTERVAL_SECS
}

/// The moment before which records are purged: a week before now.
pub open spec fn retention_cutoff(now: u64) -> u64 {
    if now >= RETENTION_SECS { (now - RETENTION_SECS) as u64 } else { 0 }
}

impl CleanupClock {
    /// A clock whose last purge was at `now_secs`.
    pub fn new(now_secs: u64) -> (c: CleanupClock)
        ensures
            c.last_cleanup_secs == now_secs,
    {
        CleanupClock { last_cleanup_secs: now_secs }
    }

    /// A clock whose last purge is now: the first purge comes an hour later.
    pub fn starting_now() -> (c: CleanupClock) {
        CleanupClock { last_cleanup_secs: unix_time_secs() }
    }

    /// Whether a purge is due at `now_secs`.
    pub fn cleanup_due(&self, now_secs: u64) -> (due: bool)
        ensures
            due == cleanup_due_spec(self.last_cleanup_secs, now_secs),
    {
        now_secs >= self.last_cleanup_secs && now_secs - self.last_cleanup_secs >= CLEANUP_INTERVAL_SECS
    }
}

/// The moment before which records are purged at `now_secs`.
pub fn cleanup_cutoff(now_secs: u64) -> (cutoff: u64)
    ensures
        cutoff == retention_cutoff(now_secs),
{
    if now_secs >= RETENTION_SECS {
        now_secs - RETENTION_SECS
    } else {
        0
    }
}

/// The statements of a purge at `now_secs` with the moment bound to their
/// `?1`: the records of both tables older than a week are deleted.
pub fn purge_plan(now_secs: u64) -> (plan: Vec<(String, i64)>)
    ensures
        plan@.len() == 2,
        plan@[0].0@ == "DELETE FROM "@ + VEHICLE_TABLE@ + " WHERE timestamp < ?1"@,
        plan@[1].0@ == "DELETE FROM "@ + PEDESTRIAN_TABLE@ + " WHERE timestamp < ?1"@,
        plan@[0].1 == secs_as_i64_spec(retention_cutoff(now_secs)),
        plan@[1].1 == secs_as_i64_spec(retention_cutoff(now_secs)),
{
    let cutoff = secs_as_i64(cleanup_cutoff(now_secs));
    let mut plan: Vec<(String, i64)> = Vec::new();
    plan.push((delete_older_sql(VEHICLE_TABLE), cutoff));
    plan.push((delete_older_sql(PEDESTRIAN_TABLE), cutoff));
    plan
}

/// The text of `delete_older_sql` for a table.
pub open spec fn delete_older_text(table: Seq<char>) -> Seq<char> {
    "DELETE FROM "@ + table + " WHERE timestamp < ?1"@
}

/// The deletion from a table of the records older than a week before `now`,
/// and whether it worked.
pub open spec fn purge_call(table: Seq<char>, now: u64, ok: bool) -> DbCall {
    DbCall::Execute { sql: delete_older_text(table), params: seq![secs_as_i64_spec(retention_cutoff(now))], ok }
}

/// What a purge at `now` hands to the database and does to the clock:
/// nothing unless one is due; a due purge deletes the week-old records of
/// the vehicle table and then of the pedestrian table, stopping at a
/// failure; only a purge whose deletions both worked moves the clock to
/// `now`.
pub open spec fn cleanup_calls_ok(old_clock: CleanupClock, new_clock: CleanupClock, now: u64, log: Seq<DbCall>) -> bool {
    &&& !cleanup_due_spec(old_clock.last_cleanup_secs, now) ==> (log.len() == 0 && new_clock == old_clock)
    &&& cleanup_due_spec(old_clock.last_cleanup_secs, now) ==> (
        (log == Seq::empty().push(purge_call(VEHICLE_TABLE@, now, true)).push(purge_call(PEDESTRIAN_TABLE@, now, true))
            && new_clock.last_cleanup_secs == now)
        || (log == Seq::empty().push(purge_call(VEHICLE_TABLE@, now, false)) && new_clock == old_clock)
        || (log == Seq::empty().push(purge_call(VEHICLE_TABLE@, now, true)).push(purge_call(PEDESTRIAN_TABLE@, now, false))
            && new_clock == old_clock))
}

/// Whether the purge calls recorded all worked (no call: nothing was due).
pub open spec fn purge_done(log: Seq<DbCall>) -> bool {
    log.len() == 0 || (log.len() == 2 && log[1] matches DbCall::Execute { ok: true, .. })
}

/// What a purge gives back: success exactly when its deletions all worked,
/// else an execution failure.
pub open spec fn cleanup_outcome_ok(old_clock: CleanupClock, new_clock: CleanupClock, now: u64, r: Result<(), SQLError>, log: Seq<DbCall>) -> bool {
    &&& cleanup_calls_ok(old_clock, new_clock, now, log)
    &&& r is Ok <==> purge_done(log)
    &&& r is Err ==> (r matches Err(SQLError::ExecutionFailed(_)))
}

/// Purges the records older than a week from both tables, if an hour has
/// passed since the last purge. Also gives back the record of the calls made.
pub fn cleanup(conn: &rusqlite::Connection, clock: &mut CleanupClock, now_secs: u64) -> (r: (Result<(), SQLError>, Ghost<Seq<DbCall>>))
    ensures
        cleanup_outcome_ok(*old(clock), *final(clock), now_secs, r.0, r.1@),
{
    if !clock.cleanup_due(now_secs) {
        return (Ok(()), Ghost(Seq::empty()));
    }
    let plan = purge_plan(now_secs);
    let params0 = [plan[0].1];
    assert(params0@ =~= seq![secs_as_i64_spec(retention_cutoff(now_secs))]);
    let (out0, g0) = execute_statement(conn, plan[0].0.as_str(), &params0);
    match out0 {
        Ok(_) => {},
        Err(e) => return (Err(SQLError::ExecutionFailed(error_text(&e))), Ghost(Seq::empty().push(g0@))),
    }
    let params1 = [plan[1].1];
    assert(params1@ =~= seq![secs_as_i64_spec(retention_cutoff(now_secs))]);
    let (out1, g1) = execute_statement(conn, plan[1].0.as_str(), &params1);
    match out1 {
        Ok(_) => {},
        Err(e) => return (Err(SQLError::ExecutionFailed(error_text(&e))), Ghost(Seq::empty().push(g0@).push(g1@))),
    }
    clock.last_cleanup_secs = now_secs;
    (Ok(()), Ghost(Seq::empty().push(g0@).push(g1@)))
}

/// Seconds as a signed SQLite integer (the largest one for times beyond it).
pub open spec fn secs_as_i64_spec(secs: u64) -> i64 {
    if secs > i64::MAX as u64 { i64::MAX } else { secs as i64 }
}

/// Seconds as a signed SQLite integer (see `secs_as_i64_spec`).
pub fn secs_as_i64(secs: u64) -> (v: i64)
    ensures
        v == secs_as_i64_spec(secs),
{
    if secs > i64::MAX as u64 { i64::MAX } else { secs as i64 }
}

/// The moment of day `d` (0 for yesterday, up to 6): `d + 1` whole days
/// before `now_secs`.
pub open spec fn day_target(now_secs: u64, d: int) -> int {
    secs_as_i64_spec(now_secs) - (d + 1) * DAY_SECS
}

/// The seven moments whose closest records make up the week, yesterday first.
pub fn day_targets(now_secs: u64) -> (t: Vec<i64>)
    ensures
        t@.len() == 7,
        forall|d: int| 0 <= d < 7 ==> #[trigger] t@[d] == day_target(now_secs, d),
{
    let now = secs_as_i64(now_secs);
    let mut t: Vec<i64> = Vec::new();
    for day in 1..8u64
        invariant
            t@.len() == day - 1,
            now == secs_as_i64_spec(now_secs),
            forall|d: int| 0 <= d < t@.len() ==> #[trigger] t@[d] == day_target(now_secs, d),
    {
        assert(day < 8);
        let offset: i64 = (day * DAY_SECS) as i64;
        t.push(now - offset);
    }
    t
}

/// The count of a neighbour row, if the query found one.
pub open spec fn row_value(r: RowOutcome<i32>) -> Option<i32> {
    match r {
        RowOutcome::Row(v) => Some(v),
        _ => None,
    }
}

/// The day sample built from the closest record's count and the answers of
/// the two neighbour queries: a failed neighbour query fails the day (the
/// previous one's error first); a neighbour that was not found is left out.
pub fn day_sample_from(center: i32, prev: RowOutcome<i32>, next: RowOutcome<i32>) -> (r: Result<DaySample, rusqlite::Error>)
    ensures
        prev matches RowOutcome::Failed(e) ==> r matches Err(f) && f == e,
        !(prev is Failed) ==> (next matches RowOutcome::Failed(e) ==> r matches Err(f) && f == e),
        !(prev is Failed) && !(next is Failed) ==> (r matches Ok(d) && d == (DaySample {
            center,
            prev: row_value(prev),
            next: row_value(next),
        })),
{
    let prev_count = match prev {
        RowOutcome::Row(v) => Some(v),
        RowOutcome::NoRows => None,
        RowOutcome::Failed(e) => return Err(e),
    };
    let next_count = match next {
        RowOutcome::Row(v) => Some(v),
        RowOutcome::NoRows => None,
        RowOutcome::Failed(e) => return Err(e),
    };
    Ok(DaySample { center, prev: prev_count, next: next_count })
}

/// The answer of a neighbour query recorded in a call.
pub open spec fn count_answer(c: DbCall) -> QueryAnswer<i32> {
    match c {
        DbCall::QueryCount { answer, .. } => answer,
        _ => QueryAnswer::Failed,
    }
}

/// The count a query answered, if it found a row.
pub open spec fn answer_value(a: QueryAnswer<i32>) -> Option<i32> {
    match a {
        QueryAnswer::Row(v) => Some(v),
        _ => None,
    }
}

/// The calls of one day: the query for the record closest to `target` and,
/// when it found one, the two neighbour queries on that record's rowid.
pub open spec fn day_calls_ok(t: Seq<DbCall>, closest: Seq<char>, prev: Seq<char>, next: Seq<char>, target: int) -> bool {
    &&& t.len() >= 1
    &&& t[0] matches DbCall::QueryRecord { sql, param, answer }
    &&& sql == closest
    &&& param == target
    &&& match answer {
        QueryAnswer::Row((rowid, _c, _ts)) => t.len() == 3
            && t[1] == (DbCall::QueryCount { sql: prev, param: rowid, answer: count_answer(t[1]) })
            && t[2] == (DbCall::QueryCount { sql: next, param: rowid, answer: count_answer(t[2]) }),
        _ => t.len() == 1,
    }
}

/// What a day's answers make of it: `None` when a query failed; else no
/// sample when no record was found, or the closest record's count with the
/// neighbours' counts that were found.
pub open spec fn day_outcome(t: Seq<DbCall>) -> Option<Option<DaySample>> {
    match t[0] {
        DbCall::QueryRecord { answer, .. } => match answer {
            QueryAnswer::Row((_rowid, c, _ts)) => if count_answer(t[1]) is Failed || count_answer(t[2]) is Failed {
                None
            } else {
                Some(Some(DaySample {
                    center: c,
                    prev: answer_value(count_answer(t[1])),
                    next: answer_value(count_answer(t[2])),
                }))
            },
            QueryAnswer::NoRows => Some(None),
            QueryAnswer::Failed => None,
        },
        _ => None,
    }
}

/// The samples of the days, in order, leaving out the days without one.
pub open spec fn collected(g: Seq<Seq<DbCall>>) -> Seq<DaySample>
    decreases g.len(),
{
    if g.len() == 0 {
        Seq::empty()
    } else {
        collected(g.drop_last()) + match day_outcome(g.last()) {
            Some(Some(d)) => seq![d],
            _ => Seq::<DaySample>::empty(),
        }
    }
}

/// The calls of a gathering at `now`: day by day, yesterday first, each
/// day's queries on the moment `day_target(now, d)`; every day but the
/// last worked, and the gathering stops early only at a failed day.
pub open spec fn gather_calls_ok(g: Seq<Seq<DbCall>>, closest: Seq<char>, prev: Seq<char>, next: Seq<char>, now: u64) -> bool {
    &&& 1 <= g.len() <= 7
    &&& forall|d: int| 0 <= d < g.len() ==> day_calls_ok(#[trigger] g[d], closest, prev, next, day_target(now, d))
    &&& forall|d: int| 0 <= d < g.len() - 1 ==> (#[trigger] day_outcome(g[d])) is Some
    &&& g.len() < 7 ==> day_outcome(g[g.len() - 1]) is None
}

/// Whether all seven days were gathered without a failure.
pub open spec fn gathered(g: Seq<Seq<DbCall>>) -> bool {
    g.len() == 7 && day_outcome(g[6]) is Some
}

/// One day's sample: the record closest to `target`, with its neighbours by
/// rowid (`day_sample_from`); `None` when no record is found. Also gives
/// back the record of the queries made.
fn sample_for_day(
    conn: &rusqlite::Connection,
    closest_sql: &str,
    prev_sql: &str,
    next_sql: &str,
    target: i64,
) -> (r: (Result<Option<DaySample>, rusqlite::Error>, Ghost<Seq<DbCall>>))
    ensures
        day_calls_ok(r.1@, closest_sql@, prev_sql@, next_sql@, target as int),
        day_outcome(r.1@) matches Some(o) ==> (r.0 matches Ok(o2) && o2 == o),
        day_outcome(r.1@) is None ==> r.0 is Err,
{
    let (closest, g0) = query_row_record(conn, closest_sql, target);
    match closest {
        RowOutcome::Row((center_rowid, center_count, _center_created_at)) => {
            let (prev, g1) = query_row_count(conn, prev_sql, center_rowid);
            let (next, g2) = query_row_count(conn, next_sql, center_rowid);
            let ghost t = seq![g0@, g1@, g2@];
            let ghost pa = answer_of(prev);
            let ghost na = answer_of(next);
            assert(count_answer(t[1]) == pa && count_answer(t[2]) == na);
            assert(answer_value(pa) == row_value(prev) && answer_value(na) == row_value(next));
            match day_sample_from(center_count, prev, next) {
                Ok(sample) => (Ok(Some(sample)), Ghost(t)),
                Err(e) => (Err(e), Ghost(t)),
            }
        },
        RowOutcome::NoRows => (Ok(None), Ghost(Seq::empty().push(g0@))),
        RowOutcome::Failed(e) => (Err(e), Ghost(Seq::empty().push(g0@))),
    }
}

/// A day whose closest record and both neighbours were found counts all
/// three: its sample holds the closest record's count and the neighbours'
/// counts, so the day's average is their mean; a neighbour that was not
/// found is left out, and a failed neighbour query fails the day.
pub proof fn lemma_day_keeps_found_counts(t: Seq<DbCall>, rowid: i64, c: i32, ts: i64, a_prev: QueryAnswer<i32>, a_next: QueryAnswer<i32>, q: Seq<char>, pq: Seq<char>, nq: Seq<char>, target: i64)
    requires
        t.len() == 3,
        t[0] == (DbCall::QueryRecord { sql: q, param: target, answer: QueryAnswer::Row((rowid, c, ts)) }),
        t[1] == (DbCall::QueryCount { sql: pq, param: rowid, answer: a_prev }),
        t[2] == (DbCall::QueryCount { sql: nq, param: rowid, answer: a_next }),
    ensures
        (a_prev is Failed || a_next is Failed) <==> day_outcome(t) is None,
        a_prev matches QueryAnswer::Row(p) ==> (day_outcome(t) matches Some(Some(d)) ==> d.prev == Some(p)),
        a_next matches QueryAnswer::Row(n) ==> (day_outcome(t) matches Some(Some(d)) ==> d.next == Some(n)),
        a_prev is NoRows ==> (day_outcome(t) matches Some(Some(d)) ==> d.prev is None),
        a_next is NoRows ==> (day_outcome(t) matches Some(Some(d)) ==> d.next is None),
        day_outcome(t) matches Some(o) ==> (o matches Some(d) && d.center == c),
        a_prev matches QueryAnswer::Row(p) ==> (a_next matches QueryAnswer::Row(n) ==> (day_outcome(t) matches Some(
            Some(d)) && day_sum(d) == c + p + n && day_len(d) == 3)),
{
}

proof fn lemma_collected_push(g: Seq<Seq<DbCall>>, t: Seq<DbCall>)
    ensures
        collected(g.push(t)) == collected(g) + match day_outcome(t) {
            Some(Some(d)) => seq![d],
            _ => Seq::<DaySample>::empty(),
        },
{
    assert(g.push(t).drop_last() =~= g);
}

/// Gathers the samples of the past seven days with the given statements:
/// for each moment of `day_targets`, the record closest to it, with its
/// neighbours by rowid (`sample_for_day`). A moment for which no record
/// is found is left out; any other failure ends the gathering. Also gives
/// back, day by day, the record of the queries made.
pub(crate) fn gather_day_samples(
    conn: &rusqlite::Connection,
    closest_sql: &str,
    prev_sql: &str,
    next_sql: &str,
    now_secs: u64,
) -> (r: (Result<Vec<DaySample>, rusqlite::Error>, Ghost<Seq<Seq<DbCall>>>))
    ensures
        gather_calls_ok(r.1@, closest_sql@, prev_sql@, next_sql@, now_secs),
        r.0 is Ok <==> gathered(r.1@),
        r.0 matches Ok(v) ==> v@ == collected(r.1@),
{
    let targets = day_targets(now_secs);
    let mut samples: Vec<DaySample> = Vec::new();
    let ghost mut g: Seq<Seq<DbCall>> = Seq::empty();
    for d in 0..7usize
        invariant
            targets@.len() == 7,
            forall|e: int| 0 <= e < 7 ==> #[trigger] targets@[e] == day_target(now_secs, e),
            g.len() == d,
            forall|e: int| 0 <= e < g.len() ==> day_calls_ok(#[trigger] g[e], closest_sql@, prev_sql@, next_sql@, day_target(now_secs, e)),
            forall|e: int| 0 <= e < g.len() ==> (#[trigger] day_outcome(g[e])) is Some,
            samples@ == collected(g),
    {
        let (day, t) = sample_for_day(conn, closest_sql, prev_sql, next_sql, targets[d]);
        proof {
            lemma_collected_push(g, t@);
        }
        let ghost g1 = g.push(t@);
        assert(g1[d as int] == t@);
        assert forall|e: int| 0 <= e < g1.len() implies day_calls_ok(#[trigger] g1[e], closest_sql@, prev_sql@, next_sql@, day_target(now_secs, e)) by {
            if e < d {
                assert(g1[e] == g[e]);
            }
        }
        match day {
            Ok(Some(sample)) => {
                samples.push(sample);
            },
            Ok(None) => {},
            Err(e) => {
                assert forall|k: int| 0 <= k < g1.len() - 1 implies (#[trigger] day_outcome(g1[k])) is Some by {
                    assert(g1[k] == g[k]);
                }
                return (Err(e), Ghost(g1));
            },
        }
        proof {
            assert forall|k: int| 0 <= k < g1.len() implies (#[trigger] day_outcome(g1[k])) is Some by {
                if k < d {
                    assert(g1[k] == g[k]);
                }
            }
            g = g1;
        }
    }
    (Ok(samples), Ghost(g))
}

/// The text of `closest_record_sql` for a table.
pub open spec fn closest_text(table: Seq<char>) -> Seq<char> {
    "SELECT rowid, obj_count, timestamp\n             FROM "@ + table + "\n             ORDER BY ABS(timestamp - ?1) ASC\n             LIMIT 1"@
}

/// The text of `previous_record_sql` for a table.
pub open spec fn previous_text(table: Seq<char>) -> Seq<char> {
    "SELECT obj_count FROM "@ + table + " WHERE rowid < ?1 ORDER BY rowid DESC LIMIT 1"@
}

/// The text of `next_record_sql` for a table.
pub open spec fn next_text(table: Seq<char>) -> Seq<char> {
    "SELECT obj_count FROM "@ + table + " WHERE rowid > ?1 ORDER BY rowid ASC LIMIT 1"@
}

/// Gathers the samples of the past seven days from a table of this store.
fn collect_day_samples(conn: &rusqlite::Connection, table: &str, now_secs: u64) -> (r: (Result<Vec<DaySample>, SQLError>, Ghost<Seq<Seq<DbCall>>>))
    ensures
        gather_calls_ok(r.1@, closest_text(table@), previous_text(table@), next_text(table@), now_secs),
        r.0 is Ok <==> gathered(r.1@),
        r.0 matches Ok(v) ==> v@ == collected(r.1@),
        r.0 matches Err(e) ==> e is ExecutionFailed,
{
    let closest_sql = closest_record_sql(table);
    let prev_sql = previous_record_sql(table);
    let next_sql = next_record_sql(table);
    let (found, g) = gather_day_samples(conn, closest_sql.as_str(), prev_sql.as_str(), next_sql.as_str(), now_secs);
    match found {
        Ok(samples) => (Ok(samples), g),
        Err(e) => (Err(SQLError::ExecutionFailed(error_text(&e))), g),
    }
}

/// What reading a weekly average handed to the database and got back: the
/// opening, the purge (with its time), and each day's queries (with the
/// time the days are counted back from).
pub struct AvgCalls {
    pub open: Seq<DbCall>,
    pub purge: Seq<DbCall>,
    pub purge_now: u64,
    pub days: Seq<Seq<DbCall>>,
    pub now: u64,
}

/// What reading a weekly average of `table` gives back, hands to the
/// database and does to the purge clock: an unlisted table is refused
/// without a call. Otherwise the database file is opened (a failure is a
/// connection failure); a due purge runs (see `cleanup_calls_ok`; a failed
/// one is an execution failure); then the seven days are gathered from
/// `table` (see `gather_calls_ok`). The value is the weekly average of the
/// samples gathered (`weekly_average` of `collected`); a failed query is an
/// execution failure.
pub open spec fn avg_outcome_ok(
    table: Seq<char>,
    old_clock: CleanupClock,
    new_clock: CleanupClock,
    r: Result<i32, SQLError>,
    c: AvgCalls,
) -> bool {
    &&& !is_listed_table(table) ==> ((r matches Err(SQLError::InvalidTable(t)) && t@ == table) && new_clock == old_clock
        && c.open.len() == 0 && c.purge.len() == 0 && c.days.len() == 0)
    &&& is_listed_table(table) ==> c.open.len() == 1
    &&& is_listed_table(table) && c.open[0] == open_call(false) ==> (r == Err::<i32, SQLError>(SQLError::DBConnectionFailed)
        && new_clock == old_clock && c.purge.len() == 0 && c.days.len() == 0)
    &&& is_listed_table(table) && c.open[0] != open_call(false) ==> (c.open[0] == open_call(true)
        && cleanup_calls_ok(old_clock, new_clock, c.purge_now, c.purge))
    &&& is_listed_table(table) && c.open[0] == open_call(true) && !purge_done(c.purge) ==> (
        (r matches Err(SQLError::ExecutionFailed(_))) && c.days.len() == 0)
    &&& is_listed_table(table) && c.open[0] == open_call(true) && purge_done(c.purge) ==> (
        gather_calls_ok(c.days, closest_text(table), previous_text(table), next_text(table), c.now)
        && (r is Ok <==> gathered(c.days))
        && (r matches Ok(v) ==> v == weekly_average(collected(c.days)))
        && (!gathered(c.days) ==> (r matches Err(SQLError::ExecutionFailed(_)))))
}

/// The record of a refused or unopened reading.
pub open spec fn avg_calls_before_purge(open: Seq<DbCall>) -> AvgCalls {
    AvgCalls { open, purge: Seq::empty(), purge_now: 0, days: Seq::empty(), now: 0 }
}

/// The weekly average count of a listed table (see `avg_outcome_ok`), after
/// purging old records when due. Also gives back the record of the calls made.
pub fn get_avg_obj_count(table: &str, clock: &mut CleanupClock) -> (r: (Result<i32, SQLError>, Ghost<AvgCalls>))
    ensures
        avg_outcome_ok(table@, *old(clock), *final(clock), r.0, r.1@),
{
    if !table_is_listed(table) {
        return (Err(SQLError::InvalidTable(String::from_str(table))), Ghost(avg_calls_before_purge(Seq::empty())));
    }
    let (opened, g_open) = init_connection(SQL_FILE_LOCATION);
    let conn = match opened {
        Ok(c) => c,
        Err(e) => return (Err(e), Ghost(avg_calls_before_purge(Seq::empty().push(g_open@)))),
    };
    let cleanup_time = unix_time_secs();
    let (purged, g_purge) = cleanup(&conn, clock, cleanup_time);
    match purged {
        Ok(()) => {},
        Err(e) => {
            let calls = Ghost(AvgCalls { open: Seq::empty().push(g_open@), purge: g_purge@, purge_now: cleanup_time, days: Seq::empty(), now: 0 });
            return (Err(e), calls);
        },
    }
    let now = unix_time_secs();
    let (found, g_days) = collect_day_samples(&conn, table, now);
    let calls = Ghost(AvgCalls { open: Seq::empty().push(g_open@), purge: g_purge@, purge_now: cleanup_time, days: g_days@, now });
    match found {
        Ok(samples) => (Ok(average_from_samples(&samples)), calls),
        Err(e) => (Err(e), calls),
    }
}

/// The weekly average pedestrian count.
pub fn get_avg_pedestrian_count(clock: &mut CleanupClock) -> (r: (Result<i32, SQLError>, Ghost<AvgCalls>))
    ensures
        avg_outcome_ok(PEDESTRIAN_TABLE@, *old(clock), *final(clock), r.0, r.1@),
{
    get_avg_obj_count(PEDESTRIAN_TABLE, clock)
}

/// The weekly average vehicle count.
pub fn get_avg_vehicle_count(clock: &mut CleanupClock) -> (r: (Result<i32, SQLError>, Ghost<AvgCalls>))
    ensures
        avg_outcome_ok(VEHICLE_TABLE@, *old(clock), *final(clock), r.0, r.1@),
{
    get_avg_obj_count(VEHICLE_TABLE, clock)
}

} // verus!
