//! The errors a store operation can report.

use vstd::prelude::*;

verus! {

/// The message of an operation that found the lock around the connection
/// left behind by a holder that panicked.
pub const LOCK_LOST: &'static str =
    "the lock around the connection was left by a holder that panicked";

/// Why a store operation failed. Each variant carries the message of the
/// underlying failure.
#[derive(Debug, Clone)]
pub enum StoreError {
    /// The data file could not be opened or prepared. The store is unusable.
    StorageInit(String),
    /// A write was not carried out, or a value could not be put into its
    /// stored form. Nothing was written; the same input may be tried again.
    Persistence(String),
    /// A read was not carried out. The requested data is unavailable.
    Query(String),
}

impl StoreError {
    /// The message of the underlying failure.
    pub open spec fn detail(self) -> Seq<char> {
        match self {
            StoreError::StorageInit(m) => m@,
            StoreError::Persistence(m) => m@,
            StoreError::Query(m) => m@,
        }
    }

    /// The message of the underlying failure.
    pub fn message(&self) -> (m: &str)
        ensures
            m@ == self.detail(),
    {
        match self {
            StoreError::StorageInit(m) => m.as_str(),
            StoreError::Persistence(m) => m.as_str(),
            StoreError::Query(m) => m.as_str(),
        }
    }

    /// Whether the store could not be opened or prepared.
    pub fn is_storage_init(&self) -> (b: bool)
        ensures
            b == (*self is StorageInit),
    {
        match self {
            StoreError::StorageInit(_) => true,
            _ => false,
        }
    }

    /// Whether a write failed.
    pub fn is_persistence(&self) -> (b: bool)
        ensures
            b == (*self is Persistence),
    {
        match self {
            StoreError::Persistence(_) => true,
            _ => false,
        }
    }

    /// Whether a read failed.
    pub fn is_query(&self) -> (b: bool)
        ensures
            b == (*self is Query),
    {
        match self {
            StoreError::Query(_) => true,
            _ => false,
        }
    }
}

} // verus!
