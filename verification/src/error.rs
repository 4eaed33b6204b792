//! The ways in which an operation of the registry can fail.

use vstd::prelude::*;

verus! {

/// Why an operation was refused.  A refused operation never changes the
/// state of the registry.
#[derive(Clone, Copy, Debug, PartialEq, Eq, Structural)]
pub enum Error {
    /// A lookup for a required asset id found no record.
    AssetIdNotFound,
    /// The caller could not be identified as a signed account.
    NoPermission,
    /// The series id counter cannot be advanced any further.
    NoAvailableSeriesId,
    /// A counter other than the series id counter cannot be advanced any
    /// further.
    NoAvailableId,
    /// The deposit could not be reserved from the creator's balance.
    InsufficientBalance,
}

} // verus!
