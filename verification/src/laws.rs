//! What holds of the registry whatever is asked of it.
//!
//! The laws are stated of the model in [`crate::model`].  They hold of the
//! executable registry as well, because each of its operations is proved to
//! change the state exactly as the model says.

use vstd::prelude::*;
use crate::error::Error;
use crate::event::Event;
use crate::model::State;
use crate::origin::Origin;
use crate::primitives::{AccountId, AssetId, ClassId, SeriesId, TokenId};
use crate::types::{AssetType, SeriesRecord};

verus! {

/// One request to create a series.
pub struct Call {
    pub origin: Origin,
    pub name: Seq<u8>,
    pub metadata: Seq<u8>,
}

/// The state after `call`, and what the call returns.
pub open spec fn step(state: State, call: Call) -> (State, Result<SeriesId, Error>) {
    state.create_series(call.origin, call.name, call.metadata)
}

/// The state after all of `calls`, made one after the other from `start`.
pub open spec fn run(start: State, calls: Seq<Call>) -> State
    decreases calls.len(),
{
    if calls.len() == 0 {
        start
    } else {
        step(run(start, calls.drop_last()), calls.last()).0
    }
}

/// What the call at position `i` returns when `calls` are made one after the
/// other from `start`.
pub open spec fn outcome(start: State, calls: Seq<Call>, i: int) -> Result<SeriesId, Error> {
    step(run(start, calls.take(i)), calls[i]).1
}

/// Every one of `calls` succeeds when they are made one after the other
/// from `start`.
pub open spec fn all_succeed(start: State, calls: Seq<Call>) -> bool {
    forall|i: int| 0 <= i < calls.len() ==> #[trigger] outcome(start, calls, i) is Ok
}

/// The series ids below `n`.
pub open spec fn ids_below(n: nat) -> Set<SeriesId> {
    Set::new(|id: SeriesId| id < n)
}

/// The series count and the series ids are in step: as many series were
/// counted as ids were handed out, and the records are those of the ids
/// handed out.
pub open spec fn in_step(state: State) -> bool {
    &&& state.all_series_count == state.next_series_id
    &&& state.series.dom() == ids_below(state.next_series_id as nat)
}

/// Every id that has a record was handed out before: the ids from the next
/// one on are free.
pub open spec fn ids_ahead_are_free(state: State) -> bool {
    forall|id: SeriesId| #[trigger] state.series.contains_key(id) ==> id < state.next_series_id
}

/// There are exactly `n` series ids below `n`.
pub proof fn lemma_ids_below_counted(n: nat)
    requires
        n <= u64::MAX,
    ensures
        ids_below(n).finite(),
        ids_below(n).len() == n,
    decreases n,
{
    if n == 0 {
        assert(ids_below(n) =~= Set::<SeriesId>::empty());
    } else {
        let rest = (n - 1) as nat;
        lemma_ids_below_counted(rest);
        assert(ids_below(n) =~= ids_below(rest).insert(rest as SeriesId));
    }
}

/// Successful calls hand out consecutive ids: made one after the other from
/// any state, the call at position `i` returns the id that lies `i` above
/// the first one, and both counters have grown by the number of calls.
pub proof fn lemma_successes_count_up(start: State, calls: Seq<Call>)
    requires
        all_succeed(start, calls),
    ensures
        start.next_series_id + calls.len() <= u64::MAX,
        start.all_series_count + calls.len() <= u64::MAX,
        run(start, calls).next_series_id == start.next_series_id + calls.len(),
        run(start, calls).all_series_count == start.all_series_count + calls.len(),
        forall|i: int|
            0 <= i < calls.len() ==> #[trigger] outcome(start, calls, i) == Ok::<SeriesId, Error>(
                (start.next_series_id + i) as SeriesId,
            ),
        in_step(start) ==> in_step(run(start, calls)),
        run(start, calls).events.len() == start.events.len() + calls.len(),
    decreases calls.len(),
{
    if calls.len() > 0 {
        let earlier = calls.drop_last();
        let last = calls.len() - 1;
        assert forall|i: int| 0 <= i < earlier.len() implies #[trigger] outcome(start, earlier, i)
            == outcome(start, calls, i) by {
            assert(earlier.take(i) =~= calls.take(i));
        }
        assert forall|i: int| 0 <= i < earlier.len() implies #[trigger] outcome(start, earlier, i)
            is Ok by {
            assert(outcome(start, calls, i) is Ok);
        }
        lemma_successes_count_up(start, earlier);
        assert(calls.take(last) =~= earlier);
        assert(outcome(start, calls, last) is Ok);
        let before = run(start, earlier);
        let after = run(start, calls);
        assert(after == step(before, calls.last()).0);
        assert forall|i: int| 0 <= i < calls.len() implies #[trigger] outcome(start, calls, i)
            == Ok::<SeriesId, Error>((start.next_series_id + i) as SeriesId) by {
            if i < last {
                assert(outcome(start, earlier, i) == outcome(start, calls, i));
            }
        }
        if in_step(start) {
            assert(after.series.dom() =~= ids_below(after.next_series_id as nat));
        }
    }
}

/// Ids are handed out in order and never twice: when every call of a
/// sequence made from the empty registry succeeds, the call at position `i`
/// returns the id `i`, so the ids are 0, 1, 2, ... in the order of the
/// calls, and no two calls return the same id.
pub proof fn law_ids_in_call_order(calls: Seq<Call>)
    requires
        all_succeed(State::empty(), calls),
    ensures
        calls.len() <= u64::MAX,
        forall|i: int|
            0 <= i < calls.len() ==> #[trigger] outcome(State::empty(), calls, i) == Ok::<
                SeriesId,
                Error,
            >(i as SeriesId),
        forall|i: int, j: int|
            0 <= i < j < calls.len() ==> #[trigger] outcome(State::empty(), calls, i)
                != #[trigger] outcome(State::empty(), calls, j),
{
    lemma_successes_count_up(State::empty(), calls);
}

/// The count agrees with the records: after `n` calls made from the empty
/// registry, all of which succeed, the series count is `n`, the records are
/// those of the ids below `n`, which are `n` different ids, and `n` events
/// were emitted.
pub proof fn law_count_matches_records(calls: Seq<Call>)
    requires
        all_succeed(State::empty(), calls),
    ensures
        run(State::empty(), calls).all_series_count == calls.len(),
        run(State::empty(), calls).next_series_id == calls.len(),
        run(State::empty(), calls).series.dom() == ids_below(calls.len()),
        run(State::empty(), calls).series.dom().finite(),
        run(State::empty(), calls).series.dom().len() == calls.len(),
        run(State::empty(), calls).events.len() == calls.len(),
{
    assert(State::empty().series.dom() =~= ids_below(0));
    lemma_successes_count_up(State::empty(), calls);
    lemma_ids_below_counted(calls.len());
}

/// An exhausted series id counter refuses: when the counter stands at its
/// largest value, a signed call fails with `NoAvailableSeriesId` and the
/// whole state, with the counter, the series and the series count, is as it
/// was.
pub proof fn law_exhausted_ids_refuse(
    state: State,
    sender: AccountId,
    name: Seq<u8>,
    metadata: Seq<u8>,
)
    requires
        state.next_series_id == u64::MAX,
    ensures
        state.create_series(Origin::Signed(sender), name, metadata) == (
            state,
            Err::<SeriesId, Error>(Error::NoAvailableSeriesId),
        ),
{
}

/// What was created can be read back: when a call returns the id `k`, the
/// origin was a signed account, and the series `k` of the state after the
/// call has the name and the metadata of the call and that account as its
/// owner.
pub proof fn law_created_series_reads_back(
    state: State,
    origin: Origin,
    name: Seq<u8>,
    metadata: Seq<u8>,
    k: SeriesId,
)
    requires
        state.create_series(origin, name, metadata).1 == Ok::<SeriesId, Error>(k),
    ensures
        origin is Signed,
        state.create_series(origin, name, metadata).0.get_series(k) == Some(
            SeriesRecord { name, owner: origin->Signed_0, metadata },
        ),
{
}

/// A series count that cannot grow leaves no record behind: when the count
/// stands at its largest value and an id is still to be had, a signed call
/// fails with `NoAvailableId`, and the whole state is as it was; no record
/// was stored under the id that the call would have taken, and that id is
/// still the next one.
pub proof fn law_exhausted_count_stores_nothing(
    state: State,
    sender: AccountId,
    name: Seq<u8>,
    metadata: Seq<u8>,
)
    requires
        state.next_series_id < u64::MAX,
        state.all_series_count == u64::MAX,
    ensures
        state.create_series(Origin::Signed(sender), name, metadata) == (
            state,
            Err::<SeriesId, Error>(Error::NoAvailableId),
        ),
        state.create_series(Origin::Signed(sender), name, metadata).0.get_series(
            state.next_series_id,
        ) == state.get_series(state.next_series_id),
{
}

/// A refused call changes nothing, whatever the reason of the refusal.
pub proof fn law_refusal_changes_nothing(
    state: State,
    origin: Origin,
    name: Seq<u8>,
    metadata: Seq<u8>,
    owner: AccountId,
    asset_id: AssetId,
)
    ensures
        state.create_series(origin, name, metadata).1 is Err ==> state.create_series(
            origin,
            name,
            metadata,
        ).0 == state,
        state.do_create_series(owner, name, metadata).1 is Err ==> state.do_create_series(
            owner,
            name,
            metadata,
        ).0 == state,
        state.allocate_asset_id().1 is Err ==> state.allocate_asset_id().0 == state,
        state.record_ownership(owner, asset_id).1 is Err ==> state.record_ownership(
            owner,
            asset_id,
        ).0 == state,
{
}

/// A successful call emits exactly one event, the one that names the signer
/// and the new id, after the events that were there; it stores the record
/// under the id that was the next one, and moves both counters up by one.
pub proof fn law_success_is_reported_once(
    state: State,
    origin: Origin,
    name: Seq<u8>,
    metadata: Seq<u8>,
)
    requires
        state.create_series(origin, name, metadata).1 is Ok,
    ensures
        origin is Signed,
        state.create_series(origin, name, metadata).1 == Ok::<SeriesId, Error>(
            state.next_series_id,
        ),
        state.create_series(origin, name, metadata).0.events == state.events.push(
            Event::NewSeriesCreated(origin->Signed_0, state.next_series_id),
        ),
        state.create_series(origin, name, metadata).0.next_series_id == state.next_series_id + 1,
        state.create_series(origin, name, metadata).0.all_series_count == state.all_series_count
            + 1,
{
}

/// A series, once created, stays as it is: in a registry whose ids from the
/// next one on are free, as they are in the empty registry, creating a
/// series leaves every record that was there untouched and stores the new
/// one under an id that had none, and the ids from the next one on are free
/// again.
pub proof fn law_series_are_never_overwritten(
    state: State,
    origin: Origin,
    name: Seq<u8>,
    metadata: Seq<u8>,
    sender: AccountId,
    earlier: SeriesId,
)
    requires
        ids_ahead_are_free(state),
        state.series.contains_key(earlier),
    ensures
        ids_ahead_are_free(State::empty()),
        ids_ahead_are_free(state.create_series(origin, name, metadata).0),
        ids_ahead_are_free(state.do_create_series(sender, name, metadata).0),
        state.create_series(origin, name, metadata).0.get_series(earlier) == state.get_series(
            earlier,
        ),
        state.do_create_series(sender, name, metadata).0.get_series(earlier) == state.get_series(
            earlier,
        ),
        state.create_series(origin, name, metadata).1 is Ok ==> !state.series.contains_key(
            state.create_series(origin, name, metadata).1->Ok_0,
        ),
        state.do_create_series(sender, name, metadata).1 is Ok ==> !state.series.contains_key(
            state.do_create_series(sender, name, metadata).1->Ok_0,
        ),
{
}

/// The references between the indices stay intact: every operation, given
/// ids that exist where the operation asks for it, takes a state whose
/// references all lead somewhere to another such state.
pub proof fn law_references_stay_intact(
    state: State,
    origin: Origin,
    name: Seq<u8>,
    metadata: Seq<u8>,
    owner: AccountId,
    series_id: SeriesId,
    class_id: ClassId,
    asset_type: AssetType,
    asset_id: AssetId,
    token_id: TokenId,
)
    requires
        state.well_formed(),
    ensures
        State::empty().well_formed(),
        state.create_series(origin, name, metadata).0.well_formed(),
        state.do_create_series(owner, name, metadata).0.well_formed(),
        state.allocate_asset_id().0.well_formed(),
        state.series.contains_key(series_id) ==> state.link_class_to_series(
            class_id,
            series_id,
        ).well_formed(),
        state.class_series.contains_key(class_id) ==> state.set_class_type(
            class_id,
            asset_type,
        ).well_formed(),
        state.class_series.contains_key(class_id) ==> state.bind_asset(
            asset_id,
            class_id,
            token_id,
        ).well_formed(),
        state.record_ownership(owner, asset_id).0.well_formed(),
{
}

} // verus!
