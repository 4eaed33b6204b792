//! The ownership index: for each account, the assets it owns, in the order
//! in which they were recorded.
//!
//! Accounts are 32-byte values that can only be compared for equality, so
//! the index is a list with one entry for each owner.

use vstd::prelude::*;
use sp_std::vec::Vec;
use crate::primitives::{AccountId, AssetId};

verus! {

/// One owner and the assets recorded for that owner, oldest first.
#[derive(Debug)]
pub struct OwnerEntry {
    pub owner: AccountId,
    pub assets: Vec<AssetId>,
}

/// No owner has two entries.
pub open spec fn distinct_owners(entries: Seq<OwnerEntry>) -> bool {
    forall|i: int, j: int|
        0 <= i < j < entries.len() ==> (#[trigger] entries[i]).owner != (
        #[trigger] entries[j]).owner
}

/// Whether `owner` has the entry at position `i`.
pub open spec fn entry_of(entries: Seq<OwnerEntry>, owner: AccountId, i: int) -> bool {
    0 <= i < entries.len() && entries[i].owner == owner
}

/// The list of entries as a map from each owner to that owner's assets.
pub open spec fn owners_map(entries: Seq<OwnerEntry>) -> Map<AccountId, Seq<AssetId>> {
    Map::new(
        |owner: AccountId| exists|i: int| entry_of(entries, owner, i),
        |owner: AccountId| entries[choose|i: int| entry_of(entries, owner, i)].assets@,
    )
}

/// The assets that the map holds for `owner`; none for an owner without an
/// entry.
pub open spec fn assets_in(owners: Map<AccountId, Seq<AssetId>>, owner: AccountId) -> Seq<AssetId> {
    if owners.contains_key(owner) {
        owners[owner]
    } else {
        Seq::empty()
    }
}

/// The entry at position `i` is what the map holds for its owner.
pub proof fn lemma_entry_is_mapped(entries: Seq<OwnerEntry>, i: int)
    requires
        distinct_owners(entries),
        0 <= i < entries.len(),
    ensures
        owners_map(entries).contains_key(entries[i].owner),
        owners_map(entries)[entries[i].owner] == entries[i].assets@,
{
    let owner = entries[i].owner;
    assert(entry_of(entries, owner, i));
    let chosen = choose|k: int| entry_of(entries, owner, k);
    if chosen < i {
        assert(entries[chosen].owner != entries[i].owner);
    } else if i < chosen {
        assert(entries[i].owner != entries[chosen].owner);
    }
}

/// A list that differs from a valid one only in the assets of the entry at
/// position `i` is valid, and its map differs only at the owner of that
/// entry.
pub proof fn lemma_entry_changed(before: Seq<OwnerEntry>, after: Seq<OwnerEntry>, i: int)
    requires
        distinct_owners(before),
        0 <= i < before.len(),
        after.len() == before.len(),
        forall|k: int| 0 <= k < before.len() ==> (#[trigger] after[k]).owner == before[k].owner,
        forall|k: int| 0 <= k < before.len() && k != i ==> #[trigger] after[k] == before[k],
    ensures
        distinct_owners(after),
        owners_map(after) == owners_map(before).insert(before[i].owner, after[i].assets@),
{
    let expected = owners_map(before).insert(before[i].owner, after[i].assets@);
    assert forall|owner: AccountId| #[trigger]
        owners_map(after).contains_key(owner) == expected.contains_key(owner) by {
        if owners_map(after).contains_key(owner) {
            let k = choose|k: int| entry_of(after, owner, k);
            assert(entry_of(before, owner, k));
        }
        if owners_map(before).contains_key(owner) {
            let k = choose|k: int| entry_of(before, owner, k);
            assert(entry_of(after, owner, k));
        }
        if owner == before[i].owner {
            assert(entry_of(after, owner, i));
        }
    }
    assert forall|owner: AccountId| #[trigger]
        owners_map(after).contains_key(owner) implies owners_map(after)[owner]
        == expected[owner] by {
        let k = choose|k: int| entry_of(after, owner, k);
        lemma_entry_is_mapped(after, k);
        lemma_entry_is_mapped(before, k);
    }
    assert(owners_map(after) =~= expected);
}

/// A valid list with one more entry, for an owner who had none, is valid,
/// and its map has that entry more.
pub proof fn lemma_entry_added(before: Seq<OwnerEntry>, entry: OwnerEntry)
    requires
        distinct_owners(before),
        forall|i: int| !entry_of(before, entry.owner, i),
    ensures
        distinct_owners(before.push(entry)),
        !owners_map(before).contains_key(entry.owner),
        owners_map(before.push(entry)) == owners_map(before).insert(entry.owner, entry.assets@),
{
    let after = before.push(entry);
    let last = before.len() as int;
    let expected = owners_map(before).insert(entry.owner, entry.assets@);
    assert forall|i: int, j: int| 0 <= i < j < after.len() implies (#[trigger] after[i]).owner
        != (#[trigger] after[j]).owner by {
        if j == last {
            assert(!entry_of(before, entry.owner, i));
        }
    }
    assert forall|owner: AccountId| #[trigger]
        owners_map(after).contains_key(owner) == expected.contains_key(owner) by {
        if owners_map(after).contains_key(owner) {
            let k = choose|k: int| entry_of(after, owner, k);
            if k < last {
                assert(entry_of(before, owner, k));
            }
        }
        if owners_map(before).contains_key(owner) {
            let k = choose|k: int| entry_of(before, owner, k);
            assert(entry_of(after, owner, k));
        }
        if owner == entry.owner {
            assert(entry_of(after, owner, last));
        }
    }
    assert forall|owner: AccountId| #[trigger]
        owners_map(after).contains_key(owner) implies owners_map(after)[owner]
        == expected[owner] by {
        let k = choose|k: int| entry_of(after, owner, k);
        lemma_entry_is_mapped(after, k);
        if k < last {
            lemma_entry_is_mapped(before, k);
        }
    }
    assert(owners_map(after) =~= expected);
}

/// The assets of each owner.
#[derive(Debug)]
pub struct OwnerIndex {
    entries: Vec<OwnerEntry>,
}

impl View for OwnerIndex {
    type V = Map<AccountId, Seq<AssetId>>;

    closed spec fn view(&self) -> Map<AccountId, Seq<AssetId>> {
        owners_map(self.entries@)
    }
}

impl OwnerIndex {
    /// The index is valid when no owner has two entries.
    pub closed spec fn wf(&self) -> bool {
        distinct_owners(self.entries@)
    }

    /// An index without owners.
    pub fn new() -> (index: OwnerIndex)
        ensures
            index.wf(),
            index@ == Map::<AccountId, Seq<AssetId>>::empty(),
    {
        let index = OwnerIndex { entries: Vec::new() };
        assert(index@ =~= Map::<AccountId, Seq<AssetId>>::empty());
        index
    }

    /// The position of the entry of `owner`, if there is one.
    fn position(&self, owner: &AccountId) -> (found: Option<usize>)
        ensures
            match found {
                Some(i) => entry_of(self.entries@, *owner, i as int),
                None => forall|i: int| !entry_of(self.entries@, *owner, i),
            },
    {
        let mut i: usize = 0;
        while i < self.entries.len()
            invariant
                i <= self.entries.len(),
                forall|k: int| 0 <= k < i ==> self.entries@[k].owner != *owner,
            decreases self.entries.len() - i,
        {
            if self.entries[i].owner == *owner {
                return Some(i);
            }
            i += 1;
        }
        None
    }

    /// The assets recorded for `owner`, oldest first; empty when there are
    /// none.
    pub fn assets_of(&self, owner: &AccountId) -> (assets: Vec<AssetId>)
        requires
            self.wf(),
        ensures
            assets@ == assets_in(self@, *owner),
    {
        match self.position(owner) {
            Some(i) => {
                proof {
                    lemma_entry_is_mapped(self.entries@, i as int);
                }
                self.entries[i].assets.clone()
            },
            None => Vec::new(),
        }
    }

    /// Appends `asset_id` to the assets of `owner`.  Recording the same
    /// asset twice lists it twice.
    pub fn append(&mut self, owner: AccountId, asset_id: AssetId)
        requires
            old(self).wf(),
        ensures
            final(self).wf(),
            final(self)@ == old(self)@.insert(owner, assets_in(old(self)@, owner).push(asset_id)),
    {
        match self.position(&owner) {
            Some(i) => {
                self.entries[i].assets.push(asset_id);
                proof {
                    lemma_entry_is_mapped(old(self).entries@, i as int);
                    lemma_entry_changed(old(self).entries@, self.entries@, i as int);
                }
            },
            None => {
                let mut assets: Vec<AssetId> = Vec::new();
                assets.push(asset_id);
                let entry = OwnerEntry { owner, assets };
                proof {
                    lemma_entry_added(self.entries@, entry);
                    assert(entry.assets@ =~= Seq::<AssetId>::empty().push(asset_id));
                }
                self.entries.push(entry);
            },
        }
    }
}

} // verus!
