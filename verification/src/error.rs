//! The ways in which the cache can fail.

use vstd::prelude::*;

verus! {

/// Why the store could not do what was asked.
#[derive(Clone, Copy, Debug, PartialEq, Eq)]
pub enum StoreError {
    /// The database could not be opened.
    Open,
    /// The table could not be made.
    Schema,
    /// A lookup failed.
    Read,
    /// An insert failed.
    Write,
}

/// Why a request could not be answered with a document.
#[derive(Clone, Copy, Debug, PartialEq, Eq)]
pub enum ResolveError {
    /// The registry has no such organization.
    NotFound,
    /// The registry could not be asked, or gave no usable answer.
    Fetch,
    /// The registry did not answer in time.
    Timeout,
    /// The store failed.
    Store(StoreError),
}

} // verus!
