//! The records of the ledger and the application state built on the store.

use vstd::prelude::*;
use std::collections::BTreeMap;
use crate::db::Database;
use crate::error::StoreError;
use crate::codec::zero_quantity;

verus! {

/// One unit of inventory.
///
/// The three ids refer to a product type, a grade and a stage; the store does
/// not require that they exist. Quantities are carried as JSON numbers, which
/// are finite by construction, and are stored as reals. `specs` holds the
/// measurements of the batch by name, in the order of the names, which is
/// the order in which they are stored; the names are expected to be those
/// that its product type declares, and are not checked against them.
#[derive(Debug, Clone)]
pub struct InventoryBatch {
    pub name: String,
    pub type_id: i64,
    pub grade_id: i64,
    pub stage_id: i64,
    pub weight: serde_json::Number,
    pub price: serde_json::Number,
    pub specs: BTreeMap<String, serde_json::Number>,
}

/// A product type together with the measurement names that its batches are
/// expected to carry, in the order in which they were declared.
#[derive(Debug, Clone)]
pub struct ProductTemplate {
    pub id: i64,
    pub name: String,
    pub required_specs: Vec<String>,
}

/// The total weight and the number of batches that an aggregation reports
/// for a given outcome of the store: the store's answer where it gave one,
/// and the `fallback` weight with a count of zero where it failed.
pub open spec fn totals_or(
    outcome: Result<(serde_json::Number, usize), StoreError>,
    fallback: serde_json::Number,
) -> (serde_json::Number, usize) {
    match outcome {
        Ok(totals) => totals,
        Err(_) => (fallback, 0usize),
    }
}

/// Replaces a failed aggregation by the `fallback` weight and a count of
/// zero, and hands a successful one on unchanged.
pub fn totals_or_fallback(
    outcome: Result<(serde_json::Number, usize), StoreError>,
    fallback: serde_json::Number,
) -> (totals: (serde_json::Number, usize))
    ensures
        totals == totals_or(outcome, fallback),
{
    match outcome {
        Ok(totals) => totals,
        Err(_) => (fallback, 0),
    }
}

/// The application state: the store, and the operations that the user
/// interface is built on.
pub struct Model {
    pub db: Database,
}

impl Model {
    /// Wraps an open store.
    pub fn new(db: Database) -> (model: Model)
        ensures
            model.db == db,
    {
        Model { db }
    }

    /// The total weight and the number of batches at a stage. Never fails:
    /// where the store cannot answer, the totals are zero.
    pub fn aggregate_stage(&self, stage_id: i64) -> (totals: (serde_json::Number, usize)) {
        let outcome = self.db.aggregate_stage_totals(stage_id);
        totals_or_fallback(outcome, zero_quantity())
    }
}

} // verus!
