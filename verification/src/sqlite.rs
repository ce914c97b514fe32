//! The boundary to SQLite.
//!
//! Everything here is believed, not proved: the declarations make the types
//! of `rusqlite` and of `std::sync` known, and each function is a single call
//! into one of them. What a statement does to the data file is decided by
//! SQLite and by what the file holds, so none of these functions promises
//! anything about the outcome of a statement; callers are proved for every
//! outcome.

use vstd::prelude::*;
use crate::model::InventoryBatch;

verus! {

/// `rusqlite::Connection`, an open SQLite database. Opaque.
#[verifier::external_type_specification]
#[verifier::external_body]
pub struct ExConnection(rusqlite::Connection);

/// `rusqlite::Error`, the failure of a call into SQLite. Opaque.
#[verifier::external_type_specification]
#[verifier::external_body]
pub struct ExSqlError(rusqlite::Error);

/// `std::sync::Mutex`, the lock around the shared connection. Opaque.
#[verifier::external_type_specification]
#[verifier::external_body]
#[verifier::reject_recursive_types(T)]
pub struct ExMutex<T: ?Sized>(std::sync::Mutex<T>);

/// `std::sync::MutexGuard`, the held lock; dropping it releases the lock.
/// Opaque.
#[verifier::external_type_specification]
#[verifier::external_body]
#[verifier::reject_recursive_types(T)]
pub struct ExMutexGuard<'a, T: ?Sized + 'a>(std::sync::MutexGuard<'a, T>);

/// `std::sync::Mutex::new`: puts a connection behind a lock.
#[verifier::external_body]
pub(crate) fn guard_connection(conn: rusqlite::Connection) -> (m: std::sync::Mutex<
    rusqlite::Connection,
>) {
    std::sync::Mutex::new(conn)
}

/// `std::sync::Mutex::lock`: waits for the lock and takes it. `None` when a
/// holder of the lock panicked; nothing is promised about which is returned.
#[verifier::external_body]
pub(crate) fn lock_connection<'a>(m: &'a std::sync::Mutex<rusqlite::Connection>) -> (g: Option<
    std::sync::MutexGuard<'a, rusqlite::Connection>,
>) {
    m.lock().ok()
}

/// `Deref::deref` of `std::sync::MutexGuard`: the connection behind a held
/// lock.
#[verifier::external_body]
pub(crate) fn connection_of<'a, 'b>(
    guard: &'a std::sync::MutexGuard<'b, rusqlite::Connection>,
) -> (conn: &'a rusqlite::Connection) {
    guard
}

/// `rusqlite::Connection::open`: opens the data file at `path`, creating it
/// if it does not exist.
#[verifier::external_body]
pub(crate) fn open_connection<P: AsRef<std::path::Path>>(path: P) -> (r: Result<
    rusqlite::Connection,
    rusqlite::Error,
>) {
    rusqlite::Connection::open(path)
}

/// `rusqlite::Connection::execute` with text parameters: runs one statement
/// that returns no rows, with `params` bound in order to `?1`, `?2`, ...;
/// gives the number of rows it changed.
#[verifier::external_body]
pub(crate) fn execute(conn: &rusqlite::Connection, sql: &str, params: &Vec<String>) -> (r: Result<
    usize,
    rusqlite::Error,
>) {
    conn.execute(sql, rusqlite::params_from_iter(params.iter()))
}

/// `rusqlite::Connection::execute` with the fields of a batch: runs one
/// statement with the batch's name, type, grade, stage, weight and price and
/// then `specs_text` bound, in this order, to `?1` ... `?7`.
#[verifier::external_body]
pub(crate) fn execute_with_batch(
    conn: &rusqlite::Connection,
    sql: &str,
    batch: &InventoryBatch,
    specs_text: &str,
) -> (r: Result<usize, rusqlite::Error>) {
    conn.execute(
        sql,
        (
            &batch.name,
            batch.type_id,
            batch.grade_id,
            batch.stage_id,
            batch.weight.as_f64(),
            batch.price.as_f64(),
            specs_text,
        ),
    )
}

/// `rusqlite::Connection::last_insert_rowid`: the row id of the most recent
/// successful insert on this connection.
#[verifier::external_body]
pub(crate) fn last_insert_rowid(conn: &rusqlite::Connection) -> (id: i64) {
    conn.last_insert_rowid()
}

/// `rusqlite::Connection::query_row` for one text column: the first column
/// of the first row that the statement returns.
#[verifier::external_body]
pub(crate) fn query_text(conn: &rusqlite::Connection, sql: &str) -> (r: Result<
    String,
    rusqlite::Error,
>) {
    conn.query_row(sql, [], |row| row.get(0))
}

/// `rusqlite::Connection::query_row` for one integer column: the first
/// column of the first row that the statement returns.
#[verifier::external_body]
pub(crate) fn query_integer(conn: &rusqlite::Connection, sql: &str) -> (r: Result<
    i64,
    rusqlite::Error,
>) {
    conn.query_row(sql, [], |row| row.get(0))
}

/// `rusqlite::Connection::query_row` for a real and an integer column, with
/// `key` bound to `?1`: the first two columns of the first row that the
/// statement returns. The real is `None` when it is not a finite number.
#[verifier::external_body]
pub(crate) fn query_real_and_integer(conn: &rusqlite::Connection, sql: &str, key: i64) -> (r:
    Result<(Option<serde_json::Number>, i64), rusqlite::Error>) {
    conn.query_row(sql, (key,), |row| Ok((serde_json::Number::from_f64(row.get(0)?), row.get(1)?)))
}

/// `rusqlite::Statement::query_map` for an integer and a text column: all
/// rows that the statement returns, in the order in which SQLite gives them.
#[verifier::external_body]
pub(crate) fn query_id_name_rows(conn: &rusqlite::Connection, sql: &str) -> (r: Result<
    Vec<(i64, String)>,
    rusqlite::Error,
>) {
    let mut stmt = conn.prepare(sql)?;
    let rows = stmt.query_map([], |row| Ok((row.get(0)?, row.get(1)?)))?;
    rows.collect()
}

/// `rusqlite::Statement::query_map` for an integer and two text columns: all
/// rows that the statement returns, in the order in which SQLite gives them.
#[verifier::external_body]
pub(crate) fn query_id_name_text_rows(conn: &rusqlite::Connection, sql: &str) -> (r: Result<
    Vec<(i64, String, String)>,
    rusqlite::Error,
>) {
    let mut stmt = conn.prepare(sql)?;
    let rows = stmt.query_map([], |row| Ok((row.get(0)?, row.get(1)?, row.get(2)?)))?;
    rows.collect()
}

/// `Display` of `rusqlite::Error`: the message of a failure.
#[verifier::external_body]
pub(crate) fn sql_error_text(e: &rusqlite::Error) -> (text: String) {
    e.to_string()
}

} // verus!
