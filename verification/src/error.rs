//! The ways in which a store operation fails.

use vstd::prelude::*;

verus! {

/// Why a store operation did not succeed.
#[derive(Debug, Clone, Copy, PartialEq, Eq, Structural)]
pub enum StoreError {
    /// The operation named an identifier that no stored record has.
    NotFound,
    /// An insert carried an identifier that a stored record already has.
    DuplicateIdentifier,
    /// The durable backend could not be reached or is corrupt.
    StorageUnavailable,
}

} // verus!
