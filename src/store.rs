//! What the library learns back from the persistence store, which runs
//! outside it.

use vstd::prelude::*;

verus! {

/// Why a store operation failed.
#[derive(Debug, Clone, Copy, PartialEq, Eq, Structural)]
pub enum StoreError {
    /// The operation was meant to touch a row and found none.
    RowNotFound,
    /// A unique constraint refused the write.
    UniqueViolation,
    /// The store could not be reached, or failed otherwise.
    Unavailable,
}

} // verus!
