//! The first form of the SQLite history: labels recorded as text, and an
//! average read with errors that keep the database's own error value.
//!
//! It shares the table list, the day samples and the weekly average with
//! `traffic::sql_ops`, and reaches `rusqlite` through the same wrappers.

use vstd::prelude::*;
use crate::config::SQL_FILE_LOCATION;
use crate::traffic::sql_ops::{
    avg_calls_before_purge, collected, gather_calls_ok, gathered, open_call, weekly_average, AvgCalls, DbCall,
    average_from_samples, error_text, execute_batch, execute_text_and_int, gather_day_samples,
    is_listed_table, open_connection, secs_as_i64, table_is_listed, unix_time_secs,
};

verus! {

/// Why creating the tables failed.
#[derive(Debug)]
pub enum SQLInitError {
    ReadInitFileFailed(String),
    DBConnectionFailed,
    ExecutionFailed(rusqlite::Error),
}

/// The text shown for an error, up to the database's own message: the
/// whole text where the error holds no database error, else its start.
pub open spec fn init_error_prefix(e: &SQLInitError) -> Seq<char> {
    match e {
        SQLInitError::ReadInitFileFailed(p) => "Failed to read init.sql file. "@ + p@ + " exists?"@,
        SQLInitError::DBConnectionFailed => "Failed to connect to the database."@,
        SQLInitError::ExecutionFailed(_) => "SQL execution failed: "@,
    }
}

impl SQLInitError {
    /// The text shown for the error; a database error's own message follows
    /// "SQL execution failed: ".
    pub fn message(&self) -> (text: String)
        ensures
            !(*self is ExecutionFailed) ==> text@ == init_error_prefix(self),
            *self is ExecutionFailed ==> text@.take(init_error_prefix(self).len() as int) == init_error_prefix(self),
    {
        match self {
            SQLInitError::ReadInitFileFailed(path_given) => {
                let mut text = String::from_str("Failed to read init.sql file. ");
                text.append(path_given.as_str());
                text.append(" exists?");
                text
            },
            SQLInitError::DBConnectionFailed => String::from_str("Failed to connect to the database."),
            SQLInitError::ExecutionFailed(e) => {
                let mut text = String::from_str("SQL execution failed: ");
                let detail = error_text(e);
                text.append(detail.as_str());
                proof {
                    reveal_strlit("SQL execution failed: ");
                }
                assert(text@.take(22) =~= "SQL execution failed: "@);
                text
            },
        }
    }
}

/// What creating the tables gives back and hands to the database: without
/// the file's content nothing is opened; otherwise the database file is
/// opened and, if that worked, the whole content is run as one batch. A
/// failed opening is a connection failure, a failed batch an execution
/// failure.
pub open spec fn label_init_outcome_ok(path: Seq<char>, content: Option<String>, r: Result<(), SQLInitError>, log: Seq<DbCall>) -> bool {
    match content {
        None => (r matches Err(SQLInitError::ReadInitFileFailed(p)) && p@ == path) && log.len() == 0,
        Some(c) => {
            ||| (log == Seq::empty().push(open_call(false)) && (r matches Err(SQLInitError::DBConnectionFailed)))
            ||| (log == Seq::empty().push(open_call(true)).push(DbCall::Batch { sql: c@, ok: true }) && r is Ok)
            ||| (log == Seq::empty().push(open_call(true)).push(DbCall::Batch { sql: c@, ok: false })
                && (r matches Err(SQLInitError::ExecutionFailed(_))))
        },
    }
}

/// Creates the tables: runs the statements of the init file, whose content
/// the caller has read (`None` when it could not be read). Also gives back
/// the record of the calls made.
pub fn init_sqlite_db(where_is_init_dot_sql: &str, init_sql_content: Option<String>) -> (r: (Result<(), SQLInitError>, Ghost<Seq<DbCall>>))
    ensures
        label_init_outcome_ok(where_is_init_dot_sql@, init_sql_content, r.0, r.1@),
{
    let content = match init_sql_content {
        Some(content) => content,
        None => return (Err(SQLInitError::ReadInitFileFailed(String::from_str(where_is_init_dot_sql))), Ghost(Seq::empty())),
    };
    let (opened, g_open) = open_connection(SQL_FILE_LOCATION);
    let conn = match opened {
        Ok(c) => c,
        Err(_) => return (Err(SQLInitError::DBConnectionFailed), Ghost(Seq::empty().push(g_open@))),
    };
    let (out, g_batch) = execute_batch(&conn, content.as_str());
    match out {
        Ok(_) => (Ok(()), Ghost(Seq::empty().push(g_open@).push(g_batch@))),
        Err(e) => (Err(SQLInitError::ExecutionFailed(e)), Ghost(Seq::empty().push(g_open@).push(g_batch@))),
    }
}

/// Opens the database, or `None` when it cannot be opened; the record says
/// which file was opened.
fn init_connection(where_is_db_file: &str) -> (r: (Option<rusqlite::Connection>, Ghost<DbCall>))
    ensures
        r.1@ == (DbCall::Open { path: where_is_db_file@, ok: r.0 is Some }),
{
    let (opened, g) = open_connection(where_is_db_file);
    match opened {
        Ok(conn) => (Some(conn), g),
        Err(_) => (None, g),
    }
}

/// Why recording a label failed.
#[derive(Debug)]
pub enum SQLInsertError {
    InvalidTable(String),
    EmptyFuzzyResult,
    DBConnectionFailed,
    ExecutionFailed(rusqlite::Error),
}

/// The text shown for an error, up to the database's own message.
pub open spec fn insert_error_prefix(e: &SQLInsertError) -> Seq<char> {
    match e {
        SQLInsertError::InvalidTable(t) => "Invalid table name provided: "@ + t@,
        SQLInsertError::EmptyFuzzyResult => "Fuzzy result cannot be empty."@,
        SQLInsertError::DBConnectionFailed => "Failed to connect to the database."@,
        SQLInsertError::ExecutionFailed(_) => "SQL execution failed: "@,
    }
}

impl SQLInsertError {
    /// The text shown for the error; a database error's own message follows
    /// "SQL execution failed: ".
    pub fn message(&self) -> (text: String)
        ensures
            !(*self is ExecutionFailed) ==> text@ == insert_error_prefix(self),
            *self is ExecutionFailed ==> text@.take(insert_error_prefix(self).len() as int) == insert_error_prefix(self),
    {
        match self {
            SQLInsertError::InvalidTable(wrong_table_name) => {
                let mut text = String::from_str("Invalid table name provided: ");
                text.append(wrong_table_name.as_str());
                text
            },
            SQLInsertError::EmptyFuzzyResult => String::from_str("Fuzzy result cannot be empty."),
            SQLInsertError::DBConnectionFailed => String::from_str("Failed to connect to the database."),
            SQLInsertError::ExecutionFailed(e) => {
                let mut text = String::from_str("SQL execution failed: ");
                let detail = error_text(e);
                text.append(detail.as_str());
                proof {
                    reveal_strlit("SQL execution failed: ");
                }
                assert(text@.take(22) =~= "SQL execution failed: "@);
                text
            },
        }
    }
}

/// Statement that records a label and its time in a table.
pub fn label_insert_sql(table: &str) -> (sql: String)
    ensures
        sql@ == "INSERT INTO "@ + table@ + " (fuzzy_result, created_at) VALUES (?1, ?2)"@,
{
    let mut sql = String::from_str("INSERT INTO ");
    sql.append(table);
    sql.append(" (fuzzy_result, created_at) VALUES (?1, ?2)");
    sql
}

/// The text of `label_insert_sql` for a table.
pub open spec fn label_insert_text(table: Seq<char>) -> Seq<char> {
    "INSERT INTO "@ + table + " (fuzzy_result, created_at) VALUES (?1, ?2)"@
}

/// The insertion of a label into a table (its time is the clock's), and
/// whether it worked.
pub open spec fn label_insert_call(c: DbCall, table: Seq<char>, fuzzy_result: Seq<char>, ok: bool) -> bool {
    &&& c matches DbCall::ExecuteTextInt { sql, text, ok: k, .. }
    &&& sql == label_insert_text(table)
    &&& text == fuzzy_result
    &&& k == ok
}

/// What recording a label gives back and hands to the database: an unlisted
/// table and an empty label are refused without opening it; otherwise the
/// database file is opened and, if that worked, the label (with the time) is
/// inserted into that table. A failed opening is a connection failure, a
/// failed insertion an execution failure.
pub open spec fn label_insert_outcome_ok(table: Seq<char>, fuzzy_result: Seq<char>, r: Result<(), SQLInsertError>, log: Seq<DbCall>) -> bool {
    &&& !is_listed_table(table) ==> ((r matches Err(SQLInsertError::InvalidTable(t)) && t@ == table) && log.len() == 0)
    &&& (is_listed_table(table) && fuzzy_result.len() == 0) ==> ((r matches Err(SQLInsertError::EmptyFuzzyResult))
        && log.len() == 0)
    &&& (is_listed_table(table) && fuzzy_result.len() > 0) ==> (
        (log == Seq::empty().push(open_call(false)) && (r matches Err(SQLInsertError::DBConnectionFailed)))
        || (log.len() == 2 && log[0] == open_call(true) && label_insert_call(log[1], table, fuzzy_result, true) && r is Ok)
        || (log.len() == 2 && log[0] == open_call(true) && label_insert_call(log[1], table, fuzzy_result, false)
            && (r matches Err(SQLInsertError::ExecutionFailed(_)))))
}

/// Records a label (such as LOW, MEDIUM or HIGH) with the current time in a
/// listed table. Also gives back the record of the calls made.
pub fn insert(table: &str, fuzzy_result: &str) -> (r: (Result<(), SQLInsertError>, Ghost<Seq<DbCall>>))
    ensures
        label_insert_outcome_ok(table@, fuzzy_result@, r.0, r.1@),
{
    if !table_is_listed(table) {
        return (Err(SQLInsertError::InvalidTable(String::from_str(table))), Ghost(Seq::empty()));
    }
    if fuzzy_result.unicode_len() == 0 {
        return (Err(SQLInsertError::EmptyFuzzyResult), Ghost(Seq::empty()));
    }
    let (opened, g_open) = init_connection(SQL_FILE_LOCATION);
    let conn = match opened {
        Some(c) => c,
        None => return (Err(SQLInsertError::DBConnectionFailed), Ghost(Seq::empty().push(g_open@))),
    };
    let sql = label_insert_sql(table);
    let time_now = secs_as_i64(unix_time_secs());
    let (out, g_exec) = execute_text_and_int(&conn, sql.as_str(), fuzzy_result, time_now);
    match out {
        Ok(_) => (Ok(()), Ghost(Seq::empty().push(g_open@).push(g_exec@))),
        Err(e) => (Err(SQLInsertError::ExecutionFailed(e)), Ghost(Seq::empty().push(g_open@).push(g_exec@))),
    }
}

/// Why reading the average failed.
#[derive(Debug)]
pub enum SQLSelectError {
    InvalidTable(String),
    DBConnectionFailed,
    ExecutionFailed(rusqlite::Error),
}

/// Statement that finds the record closest in time to a moment.
pub fn closest_label_sql(table: &str) -> (sql: String)
    ensures
        sql@ == "SELECT rowid, object_count, created_at\n             FROM "@ + table@
            + "\n             ORDER BY ABS(created_at - ?1) ASC\n             LIMIT 1"@,
{
    let mut sql = String::from_str("SELECT rowid, object_count, created_at\n             FROM ");
    sql.append(table);
    sql.append("\n             ORDER BY ABS(created_at - ?1) ASC\n             LIMIT 1");
    sql
}

/// Statement that finds the count recorded just before a row.
pub fn previous_label_sql(table: &str) -> (sql: String)
    ensures
        sql@ == "SELECT object_count FROM "@ + table@ + " WHERE rowid < ?1 ORDER BY rowid DESC LIMIT 1"@,
{
    let mut sql = String::from_str("SELECT object_count FROM ");
    sql.append(table);
    sql.append(" WHERE rowid < ?1 ORDER BY rowid DESC LIMIT 1");
    sql
}

/// Statement that finds the count recorded just after a row.
pub fn next_label_sql(table: &str) -> (sql: String)
    ensures
        sql@ == "SELECT object_count FROM "@ + table@ + " WHERE rowid > ?1 ORDER BY rowid ASC LIMIT 1"@,
{
    let mut sql = String::from_str("SELECT object_count FROM ");
    sql.append(table);
    sql.append(" WHERE rowid > ?1 ORDER BY rowid ASC LIMIT 1");
    sql
}

/// The text of `closest_label_sql` for a table.
pub open spec fn closest_label_text(table: Seq<char>) -> Seq<char> {
    "SELECT rowid, object_count, created_at\n             FROM "@ + table
        + "\n             ORDER BY ABS(created_at - ?1) ASC\n             LIMIT 1"@
}

/// The text of `previous_label_sql` for a table.
pub open spec fn previous_label_text(table: Seq<char>) -> Seq<char> {
    "SELECT object_count FROM "@ + table + " WHERE rowid < ?1 ORDER BY rowid DESC LIMIT 1"@
}

/// The text of `next_label_sql` for a table.
pub open spec fn next_label_text(table: Seq<char>) -> Seq<char> {
    "SELECT object_count FROM "@ + table + " WHERE rowid > ?1 ORDER BY rowid ASC LIMIT 1"@
}

/// What reading the weekly average of `table` gives back and hands to the
/// database: an unlisted table is refused without a call. Otherwise the
/// database file is opened (a failure is a connection failure); then the
/// seven days are gathered from `table` (see `gather_calls_ok`). The value
/// is the weekly average of the samples gathered (`weekly_average` of
/// `collected`); a failed query is an execution failure. Nothing is purged.
pub open spec fn label_avg_outcome_ok(table: Seq<char>, r: Result<i32, SQLSelectError>, c: AvgCalls) -> bool {
    &&& c.purge.len() == 0
    &&& !is_listed_table(table) ==> ((r matches Err(SQLSelectError::InvalidTable(t)) && t@ == table)
        && c.open.len() == 0 && c.days.len() == 0)
    &&& is_listed_table(table) ==> (c.open.len() == 1 && (c.open[0] == open_call(false) || c.open[0] == open_call(true)))
    &&& is_listed_table(table) && c.open[0] == open_call(false) ==> ((r matches Err(SQLSelectError::DBConnectionFailed))
        && c.days.len() == 0)
    &&& is_listed_table(table) && c.open[0] == open_call(true) ==> (
        gather_calls_ok(c.days, closest_label_text(table), previous_label_text(table), next_label_text(table), c.now)
        && (r is Ok <==> gathered(c.days))
        && (r matches Ok(v) ==> v == weekly_average(collected(c.days)))
        && (!gathered(c.days) ==> (r matches Err(SQLSelectError::ExecutionFailed(_)))))
}

/// The weekly average count of a listed table: the mean of the past seven
/// days' averages that are not zero, rounded to the nearest integer (see
/// `weekly_average`), or 0 when no day counts (see `label_avg_outcome_ok`).
/// Also gives back the record of the calls made.
pub fn get_avg_obj_count(table: &str) -> (r: (Result<i32, SQLSelectError>, Ghost<AvgCalls>))
    ensures
        label_avg_outcome_ok(table@, r.0, r.1@),
{
    if !table_is_listed(table) {
        return (Err(SQLSelectError::InvalidTable(String::from_str(table))), Ghost(avg_calls_before_purge(Seq::empty())));
    }
    let (opened, g_open) = init_connection(SQL_FILE_LOCATION);
    let conn = match opened {
        Some(c) => c,
        None => return (Err(SQLSelectError::DBConnectionFailed), Ghost(avg_calls_before_purge(Seq::empty().push(g_open@)))),
    };
    let now = unix_time_secs();
    let closest_sql = closest_label_sql(table);
    let prev_sql = previous_label_sql(table);
    let next_sql = next_label_sql(table);
    let (found, g_days) = gather_day_samples(&conn, closest_sql.as_str(), prev_sql.as_str(), next_sql.as_str(), now);
    let calls = Ghost(AvgCalls { open: Seq::empty().push(g_open@), purge: Seq::empty(), purge_now: 0, days: g_days@, now });
    match found {
        Ok(samples) => (Ok(average_from_samples(&samples)), calls),
        Err(e) => (Err(SQLSelectError::ExecutionFailed(e)), calls),
    }
}

} // verus!
