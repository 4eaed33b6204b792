//! The notifications that the registry emits when its state changes.

use vstd::prelude::*;
use crate::primitives::{AccountId, SeriesId};

verus! {

/// A change of state that the registry reports to the outside.
#[derive(Clone, Copy, Debug, PartialEq, Eq)]
pub enum Event {
    /// A series was created: its owner and its id.
    NewSeriesCreated(AccountId, SeriesId),
}

} // verus!
