//! The statements that the store runs.
//!
//! Four tables: batches, stages, grades and product types. Ids are assigned by
//! SQLite as row ids.

use vstd::prelude::*;

verus! {

/// Switches on the enforcement of foreign keys for the connection.
pub const ENABLE_FOREIGN_KEYS: &'static str = "PRAGMA foreign_keys = ON;";

/// Switches the data file to the write-ahead log, under which readers do not
/// block the writer. Returns the journal mode that is then in force.
pub const ENABLE_WRITE_AHEAD_LOG: &'static str = "PRAGMA journal_mode = WAL;";

/// The table of batches. `created_at` is filled in by SQLite when a row is
/// written.
pub const CREATE_BATCHES: &'static str = "CREATE TABLE IF NOT EXISTS inventory_batches (
                id INTEGER PRIMARY KEY,
                name TEXT NOT NULL,
                type_id INTEGER,
                grade_id INTEGER,
                stage_id INTEGER,
                weight REAL NOT NULL,
                price REAL NOT NULL,
                specs_json TEXT NOT NULL,
                created_at TEXT DEFAULT CURRENT_TIMESTAMP
            )";

/// The table of stages; no two rows have the same name.
pub const CREATE_STAGES: &'static str = "CREATE TABLE IF NOT EXISTS stages (
                id INTEGER PRIMARY KEY,
                name TEXT NOT NULL UNIQUE
            )";

/// The table of grades; no two rows have the same name.
pub const CREATE_GRADES: &'static str = "CREATE TABLE IF NOT EXISTS grades (
                id INTEGER PRIMARY KEY,
                name TEXT NOT NULL UNIQUE
            )";

/// The table of product types; no two rows have the same name. The
/// measurement names of a type are kept as JSON text.
pub const CREATE_PRODUCT_TYPES: &'static str = "CREATE TABLE IF NOT EXISTS product_types (
                id INTEGER PRIMARY KEY,
                name TEXT NOT NULL UNIQUE,
                specs_keys_json TEXT NOT NULL
            )";

/// The number of stages.
pub const COUNT_STAGES: &'static str = "SELECT COUNT(*) FROM stages";

/// The number of grades.
pub const COUNT_GRADES: &'static str = "SELECT COUNT(*) FROM grades";

/// Writes a baseline stage; fails where the name exists.
pub const SEED_STAGE: &'static str = "INSERT INTO stages (name) VALUES (?1)";

/// Writes a baseline grade; fails where the name exists.
pub const SEED_GRADE: &'static str = "INSERT INTO grades (name) VALUES (?1)";

/// Adds a stage; does nothing where the name exists.
pub const INSERT_STAGE: &'static str = "INSERT OR IGNORE INTO stages (name) VALUES (?1)";

/// Adds a grade; does nothing where the name exists.
pub const INSERT_GRADE: &'static str = "INSERT OR IGNORE INTO grades (name) VALUES (?1)";

/// Adds a product type; does nothing where the name exists.
pub const INSERT_PRODUCT_TYPE: &'static str =
    "INSERT OR IGNORE INTO product_types (name, specs_keys_json) VALUES (?1, ?2)";

/// Writes a batch, all of its fields in one statement.
pub const INSERT_BATCH: &'static str =
    "INSERT INTO inventory_batches (name, type_id, grade_id, stage_id, weight, price, specs_json)
             VALUES (?1, ?2, ?3, ?4, ?5, ?6, ?7)";

/// All stages, by ascending id.
pub const LIST_STAGES: &'static str = "SELECT id, name FROM stages ORDER BY id ASC";

/// All grades, by ascending id.
pub const LIST_GRADES: &'static str = "SELECT id, name FROM grades ORDER BY id ASC";

/// All product types, by ascending id.
pub const LIST_PRODUCT_TYPES: &'static str =
    "SELECT id, name, specs_keys_json FROM product_types ORDER BY id ASC";

/// The total weight, zero where there is no batch, and the number of the
/// batches at one stage.
pub const STAGE_TOTALS: &'static str =
    "SELECT COALESCE(SUM(weight), 0.0), COUNT(*) FROM inventory_batches WHERE stage_id = ?1";

/// The parameters of a statement that takes a name alone: the name, for
/// `?1`.
pub fn name_params(name: String) -> (params: Vec<String>)
    ensures
        params.deep_view() == seq![name@],
{
    let params = vec![name];
    assert(params.deep_view() =~= seq![name@]);
    params
}

/// The parameters of the statement that adds a product type: its name, for
/// `?1`, then the stored form of its measurement names, for `?2`.
pub fn product_type_params(name: String, keys_text: String) -> (params: Vec<String>)
    ensures
        params.deep_view() == seq![name@, keys_text@],
{
    let params = vec![name, keys_text];
    assert(params.deep_view() =~= seq![name@, keys_text@]);
    params
}

} // verus!
