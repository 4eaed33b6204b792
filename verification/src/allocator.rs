//! The identifier allocator: one counter for each namespace of ids.
//!
//! A counter hands out the values 0, 1, 2, ... one at a time.  When the next
//! value would not fit, the allocation is refused and the counter keeps its
//! value.

use vstd::prelude::*;
use sp_runtime::traits::One;
use crate::error::Error;

verus! {

/// One allocation from a counter that stands at `current`: the value at
/// which the counter stands afterwards, and the id that was handed out.
pub open spec fn allocate(current: u64) -> (u64, Result<u64, Error>) {
    if current < u64::MAX {
        ((current + 1) as u64, Ok(current))
    } else {
        (current, Err(Error::NoAvailableId))
    }
}

/// Where a counter stands after `n` allocations in a row that began at
/// `start`.
pub open spec fn after_allocations(start: u64, n: nat) -> u64
    decreases n,
{
    if n == 0 {
        start
    } else {
        allocate(after_allocations(start, (n - 1) as nat)).0
    }
}

/// Allocations in a row hand out consecutive ids: the counter moves up by
/// one with each of them until it stands at the largest value, where it
/// stays; an allocation that succeeds after `n` earlier ones returns the id
/// that lies `n` above the first, so no two of them return the same id.
pub proof fn law_allocations_are_consecutive(start: u64, n: nat)
    ensures
        after_allocations(start, n) == if start + n <= u64::MAX {
            start + n
        } else {
            u64::MAX as int
        },
        allocate(after_allocations(start, n)).1 is Ok <==> start + n < u64::MAX,
        allocate(after_allocations(start, n)).1 is Ok ==> allocate(after_allocations(start, n)).1
            == Ok::<u64, Error>((start + n) as u64),
    decreases n,
{
    if n > 0 {
        law_allocations_are_consecutive(start, (n - 1) as nat);
    }
}

/// The step from one id to the next.
///
/// Calls `sp_runtime::traits::One::one` at `u64`.  The contract claims what
/// the trait documents and what its implementation for `u64` returns: the
/// multiplicative identity, 1.
#[verifier::external_body]
fn one() -> (step: u64)
    ensures
        step == 1,
{
    One::one()
}

/// The counter of one namespace.
#[derive(Clone, Copy, Debug, PartialEq, Eq, Structural)]
pub struct Counter {
    next: u64,
}

impl View for Counter {
    type V = u64;

    /// The id that the next allocation hands out.
    closed spec fn view(&self) -> u64 {
        self.next
    }
}

impl Counter {
    /// A counter that has handed out nothing yet.
    pub fn new() -> (counter: Counter)
        ensures
            counter@ == 0,
    {
        Counter { next: 0 }
    }

    /// A counter that stands at `next`.
    pub fn starting_at(next: u64) -> (counter: Counter)
        ensures
            counter@ == next,
    {
        Counter { next }
    }

    /// The id that the next allocation hands out.
    pub fn current(&self) -> (next: u64)
        ensures
            next == self@,
    {
        self.next
    }

    /// Whether the next allocation will be refused.
    pub fn is_exhausted(&self) -> (yes: bool)
        ensures
            yes == (self@ == u64::MAX),
            yes == (allocate(self@).1 is Err),
    {
        self.next == u64::MAX
    }

    /// Hands out the current value and advances the counter by one, or
    /// refuses with `NoAvailableId` and leaves the counter as it is.
    pub fn allocate_next(&mut self) -> (id: Result<u64, Error>)
        ensures
            (final(self)@, id) == allocate(old(self)@),
    {
        let current: u64 = self.next;
        match current.checked_add(one()) {
            Some(next) => {
                self.next = next;
                Ok(current)
            },
            None => Err(Error::NoAvailableId),
        }
    }
}

} // verus!
