//! The store: one SQLite data file behind one shared, locked connection.

use vstd::prelude::*;
use std::sync::Arc;
use std::sync::Mutex;
use crate::codec::{decode_product_rows, encode_spec_keys, encode_specs};
use crate::error::{StoreError, LOCK_LOST};
use crate::model::InventoryBatch;
use crate::schema::{
    COUNT_GRADES, COUNT_STAGES, CREATE_BATCHES, CREATE_GRADES, CREATE_PRODUCT_TYPES,
    CREATE_STAGES, ENABLE_FOREIGN_KEYS, ENABLE_WRITE_AHEAD_LOG, INSERT_BATCH, INSERT_GRADE,
    INSERT_PRODUCT_TYPE, INSERT_STAGE, LIST_GRADES, LIST_PRODUCT_TYPES, LIST_STAGES, SEED_GRADE,
    SEED_STAGE, STAGE_TOTALS, name_params, product_type_params,
};
use crate::seed::{default_grade_names, default_stage_names, seed_plan};
use crate::sqlite::{
    connection_of, execute, execute_with_batch, guard_connection, last_insert_rowid,
    lock_connection, open_connection, query_id_name_rows, query_id_name_text_rows, query_integer,
    query_real_and_integer, query_text, sql_error_text,
};

verus! {

/// A handle to the store. Clones share the one connection.
#[derive(Clone)]
pub struct Database {
    conn: Arc<Mutex<rusqlite::Connection>>,
}

/// Settles the outcome of a call into SQLite that was made to open the
/// store: what the call gave where it succeeded, and otherwise a failure to
/// initialise the storage that carries the message of the call.
pub fn during_open<T>(outcome: Result<T, rusqlite::Error>) -> (r: Result<T, StoreError>)
    ensures
        outcome is Ok ==> r == Ok::<T, StoreError>(outcome->Ok_0),
        outcome is Err ==> r is Err && r->Err_0 is StorageInit,
{
    match outcome {
        Ok(value) => Ok(value),
        Err(e) => Err(StoreError::StorageInit(sql_error_text(&e))),
    }
}

/// Settles the outcome of a call into SQLite that was made to write: what
/// the call gave where it succeeded, and otherwise a failure to persist that
/// carries the message of the call.
pub fn during_write<T>(outcome: Result<T, rusqlite::Error>) -> (r: Result<T, StoreError>)
    ensures
        outcome is Ok ==> r == Ok::<T, StoreError>(outcome->Ok_0),
        outcome is Err ==> r is Err && r->Err_0 is Persistence,
{
    match outcome {
        Ok(value) => Ok(value),
        Err(e) => Err(StoreError::Persistence(sql_error_text(&e))),
    }
}

/// Settles the outcome of a call into SQLite that was made to read: what
/// the call gave where it succeeded, and otherwise a failed query that
/// carries the message of the call.
pub fn during_read<T>(outcome: Result<T, rusqlite::Error>) -> (r: Result<T, StoreError>)
    ensures
        outcome is Ok ==> r == Ok::<T, StoreError>(outcome->Ok_0),
        outcome is Err ==> r is Err && r->Err_0 is Query,
{
    match outcome {
        Ok(value) => Ok(value),
        Err(e) => Err(StoreError::Query(sql_error_text(&e))),
    }
}

/// The message for a lock that a panicking holder left behind.
fn lock_lost() -> (text: String)
    ensures
        text@ == LOCK_LOST@,
{
    LOCK_LOST.to_string()
}

/// Settles the outcome of the aggregation statement: the totals where the
/// weight is a finite number and the count fits the machine's `usize`, a
/// query error otherwise.
pub fn stage_totals(weight: Option<serde_json::Number>, count: i64) -> (r: Result<
    (serde_json::Number, usize),
    StoreError,
>)
    ensures
        r is Ok <==> weight is Some && 0 <= count <= usize::MAX,
        r is Ok ==> r->Ok_0.0 == weight->Some_0 && r->Ok_0.1 == count,
        r is Err ==> r->Err_0 is Query,
{
    match weight {
        Some(total) => {
            if 0 <= count && (count as i128) <= (usize::MAX as i128) {
                Ok((total, count as usize))
            } else {
                Err(StoreError::Query("the number of batches is out of range".to_string()))
            }
        },
        None => Err(StoreError::Query("the total weight is not a finite number".to_string())),
    }
}

/// Switches on foreign keys and the write-ahead log, and creates the tables
/// that do not exist yet.
fn prepare_store(conn: &rusqlite::Connection) -> (r: Result<(), StoreError>)
    ensures
        r is Err ==> r->Err_0 is StorageInit,
{
    let none: Vec<String> = Vec::new();
    during_open(execute(conn, ENABLE_FOREIGN_KEYS, &none))?;
    during_open(query_text(conn, ENABLE_WRITE_AHEAD_LOG))?;
    during_open(execute(conn, CREATE_BATCHES, &none))?;
    during_open(execute(conn, CREATE_STAGES, &none))?;
    during_open(execute(conn, CREATE_GRADES, &none))?;
    during_open(execute(conn, CREATE_PRODUCT_TYPES, &none))?;
    Ok(())
}

/// Writes the baseline names into one table if that table is empty.
fn seed_table(
    conn: &rusqlite::Connection,
    count_sql: &str,
    insert_sql: &str,
    baseline: Vec<String>,
) -> (r: Result<(), StoreError>)
    ensures
        r is Err ==> r->Err_0 is Query || r->Err_0 is Persistence,
{
    let row_count = during_read(query_integer(conn, count_sql))?;
    let names = seed_plan(row_count, baseline);
    let mut i: usize = 0;
    while i < names.len()
        invariant
            i <= names.len(),
        decreases names.len() - i,
    {
        let params = name_params(names[i].clone());
        during_write(execute(conn, insert_sql, &params))?;
        i += 1;
    }
    Ok(())
}

impl Database {
    /// Opens the store at `path`, creating the data file and its tables where
    /// they do not exist. Safe on a data file that an earlier run filled.
    pub fn open<P: AsRef<std::path::Path>>(path: P) -> (r: Result<Database, StoreError>)
        ensures
            r is Err ==> r->Err_0 is StorageInit,
    {
        let conn = during_open(open_connection(path))?;
        prepare_store(&conn)?;
        Ok(Database { conn: Arc::new(guard_connection(conn)) })
    }

    /// Writes the baseline stages and grades, each list only into a table
    /// that is empty. The two tables are seeded one after the other, not as
    /// one unit.
    pub fn seed_defaults(&self) -> (r: Result<(), StoreError>)
        ensures
            r is Err ==> r->Err_0 is Query || r->Err_0 is Persistence,
    {
        let guard = match lock_connection(&self.conn) {
            Some(guard) => guard,
            None => return Err(StoreError::Query(lock_lost())),
        };
        let conn = connection_of(&guard);
        seed_table(conn, COUNT_STAGES, SEED_STAGE, default_stage_names())?;
        seed_table(conn, COUNT_GRADES, SEED_GRADE, default_grade_names())
    }

    /// Writes one batch, all of its fields in one statement, and gives the
    /// id that the store assigned to it. The store notes the time of writing
    /// with the row.
    pub fn insert_inventory_batch(&self, b: &InventoryBatch) -> (r: Result<i64, StoreError>)
        ensures
            r is Err ==> r->Err_0 is Persistence,
    {
        let guard = match lock_connection(&self.conn) {
            Some(guard) => guard,
            None => return Err(StoreError::Persistence(lock_lost())),
        };
        let conn = connection_of(&guard);
        let specs_text = encode_specs(&b.specs)?;
        during_write(execute_with_batch(conn, INSERT_BATCH, b, specs_text.as_str()))?;
        Ok(last_insert_rowid(conn))
    }

    /// The total weight and the number of the batches at one stage. A stage
    /// without batches, known or not, has a total of zero and a count of
    /// zero; that is no failure.
    pub fn aggregate_stage_totals(&self, stage_id: i64) -> (r: Result<
        (serde_json::Number, usize),
        StoreError,
    >)
        ensures
            r is Err ==> r->Err_0 is Query,
    {
        let guard = match lock_connection(&self.conn) {
            Some(guard) => guard,
            None => return Err(StoreError::Query(lock_lost())),
        };
        let conn = connection_of(&guard);
        let row = during_read(query_real_and_integer(conn, STAGE_TOTALS, stage_id))?;
        stage_totals(row.0, row.1)
    }

    /// Adds a stage unless one of that name exists, which is no failure.
    /// Gives the id of the new stage; where the name existed, the id is that
    /// of the row that this connection wrote last, and says nothing about
    /// the stage: list the stages to find it.
    pub fn insert_stage(&self, name: String) -> (r: Result<i64, StoreError>)
        ensures
            r is Err ==> r->Err_0 is Persistence,
    {
        let guard = match lock_connection(&self.conn) {
            Some(guard) => guard,
            None => return Err(StoreError::Persistence(lock_lost())),
        };
        let conn = connection_of(&guard);
        let params = name_params(name);
        during_write(execute(conn, INSERT_STAGE, &params))?;
        Ok(last_insert_rowid(conn))
    }

    /// All stages, by ascending id.
    pub fn get_all_stages(&self) -> (r: Result<Vec<(i64, String)>, StoreError>)
        ensures
            r is Err ==> r->Err_0 is Query,
    {
        let guard = match lock_connection(&self.conn) {
            Some(guard) => guard,
            None => return Err(StoreError::Query(lock_lost())),
        };
        during_read(query_id_name_rows(connection_of(&guard), LIST_STAGES))
    }

    /// Adds a grade unless one of that name exists, which is no failure.
    /// Gives the id of the new grade; where the name existed, the id is that
    /// of the row that this connection wrote last, and says nothing about
    /// the grade: list the grades to find it.
    pub fn insert_grade(&self, name: String) -> (r: Result<i64, StoreError>)
        ensures
            r is Err ==> r->Err_0 is Persistence,
    {
        let guard = match lock_connection(&self.conn) {
            Some(guard) => guard,
            None => return Err(StoreError::Persistence(lock_lost())),
        };
        let conn = connection_of(&guard);
        let params = name_params(name);
        during_write(execute(conn, INSERT_GRADE, &params))?;
        Ok(last_insert_rowid(conn))
    }

    /// All grades, by ascending id.
    pub fn get_all_grades(&self) -> (r: Result<Vec<(i64, String)>, StoreError>)
        ensures
            r is Err ==> r->Err_0 is Query,
    {
        let guard = match lock_connection(&self.conn) {
            Some(guard) => guard,
            None => return Err(StoreError::Query(lock_lost())),
        };
        during_read(query_id_name_rows(connection_of(&guard), LIST_GRADES))
    }

    /// Adds a product type with its measurement names unless one of that
    /// name exists, which is no failure and leaves the names of the existing
    /// type as they are. Gives the id of the new type; where the name
    /// existed, the id is that of the row that this connection wrote last.
    pub fn insert_product_type(&self, name: String, specs_keys: Vec<String>) -> (r: Result<
        i64,
        StoreError,
    >)
        ensures
            r is Err ==> r->Err_0 is Persistence,
    {
        let guard = match lock_connection(&self.conn) {
            Some(guard) => guard,
            None => return Err(StoreError::Persistence(lock_lost())),
        };
        let conn = connection_of(&guard);
        let keys_text = encode_spec_keys(&specs_keys)?;
        let params = product_type_params(name, keys_text);
        during_write(execute(conn, INSERT_PRODUCT_TYPE, &params))?;
        Ok(last_insert_rowid(conn))
    }

    /// All product types with their measurement names, by ascending id. A
    /// type whose stored names cannot be read is listed with no names; the
    /// other types are not affected.
    pub fn get_all_product_types(&self) -> (r: Result<Vec<(i64, String, Vec<String>)>, StoreError>)
        ensures
            r is Err ==> r->Err_0 is Query,
    {
        let guard = match lock_connection(&self.conn) {
            Some(guard) => guard,
            None => return Err(StoreError::Query(lock_lost())),
        };
        let rows = during_read(query_id_name_text_rows(connection_of(&guard), LIST_PRODUCT_TYPES))?;
        Ok(decode_product_rows(&rows))
    }
}

} // verus!
