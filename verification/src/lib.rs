//! A ledger store for inventory batches.
//!
//! Batches are classified by processing stage, quality grade and product
//! type, and each carries a bag of named measurements. Everything is kept in
//! one SQLite data file behind a single connection that all holders of a
//! [`Database`] handle share; every operation takes the connection for its
//! whole duration, so operations never interleave.
//!
//! The statements themselves are run by SQLite. What this crate proves is the
//! logic around them: how stored text is decoded, which baseline names are
//! written and when, what a failed aggregation is replaced by, and which kind
//! of error each operation can report. It also proves the text handling that
//! a front end needs: reading a line of measurement names, showing a product
//! type, and finding the id behind a position of a list.

pub mod codec;
pub mod db;
pub mod error;
pub mod forms;
pub mod model;
pub mod schema;
pub mod seed;
pub mod selection;
pub mod sqlite;

pub use crate::db::Database;
pub use crate::error::StoreError;
pub use crate::model::{InventoryBatch, Model, ProductTemplate};
