//! The registry as mathematics: its state, and each operation as a function
//! from the state before to the state after and the result.
//!
//! The contracts of the executable registry are stated over this model, and
//! the laws of the registry are proved of it.

use vstd::prelude::*;
use crate::allocator::allocate;
use crate::error::Error;
use crate::event::Event;
use crate::origin::{signer_of, Origin};
use crate::owners::assets_in;
use crate::primitives::{AccountId, AssetId, ClassId, SeriesId, TokenId};
use crate::types::{AssetType, SeriesRecord};

verus! {

/// Everything that the registry persists.
#[verifier::ext_equal]
pub struct State {
    /// The id that the next series gets.
    pub next_series_id: u64,
    /// How many series were created.
    pub all_series_count: u64,
    /// The id that the next asset gets.
    pub next_asset_id: AssetId,
    /// The series, by id.
    pub series: Map<SeriesId, SeriesRecord>,
    /// The series that each class belongs to.
    pub class_series: Map<ClassId, SeriesId>,
    /// The kind of each class that has said so.
    pub class_type: Map<ClassId, AssetType>,
    /// Where each asset lives in the token store, once it is bound.
    pub assets: Map<AssetId, Option<(ClassId, TokenId)>>,
    /// The assets of each owner, in the order in which they were recorded.
    pub assets_by_owner: Map<AccountId, Seq<AssetId>>,
    /// The events emitted so far, oldest first.
    pub events: Seq<Event>,
}

impl State {
    /// The state of a registry in which nothing has happened yet.
    pub open spec fn empty() -> State {
        State::starting_at(0, 0, 0)
    }

    /// The state of a registry without records whose counters stand at the
    /// given values.
    pub open spec fn starting_at(
        next_series_id: u64,
        all_series_count: u64,
        next_asset_id: AssetId,
    ) -> State {
        State {
            next_series_id,
            all_series_count,
            next_asset_id,
            series: Map::empty(),
            class_series: Map::empty(),
            class_type: Map::empty(),
            assets: Map::empty(),
            assets_by_owner: Map::empty(),
            events: Seq::empty(),
        }
    }

    /// The references between the indices all lead somewhere:
    /// every class that the registry knows belongs to a series that exists,
    /// every bound asset lies in a class that the registry knows, and
    /// every asset in an owner's list has an entry of its own.
    pub open spec fn well_formed(self) -> bool {
        &&& forall|class_id: ClassId| #[trigger]
            self.class_series.contains_key(class_id) ==> self.series.contains_key(
                self.class_series[class_id],
            )
        &&& forall|class_id: ClassId| #[trigger]
            self.class_type.contains_key(class_id) ==> self.class_series.contains_key(class_id)
        &&& forall|asset_id: AssetId| #[trigger]
            self.assets.contains_key(asset_id) ==> match self.assets[asset_id] {
                Some((class_id, _)) => self.class_series.contains_key(class_id),
                None => true,
            }
        &&& forall|owner: AccountId, i: int|
            self.assets_by_owner.contains_key(owner) && 0 <= i
                < self.assets_by_owner[owner].len() ==> self.assets.contains_key(
                #[trigger] self.assets_by_owner[owner][i],
            )
    }

    /// The series with the given id, if there is one.
    pub open spec fn get_series(self, series_id: SeriesId) -> Option<SeriesRecord> {
        if self.series.contains_key(series_id) {
            Some(self.series[series_id])
        } else {
            None
        }
    }

    /// The series that a class belongs to, if the registry knows the class.
    pub open spec fn get_class_series(self, class_id: ClassId) -> Option<SeriesId> {
        if self.class_series.contains_key(class_id) {
            Some(self.class_series[class_id])
        } else {
            None
        }
    }

    /// The kind of a class: transferrable unless the class has said otherwise.
    pub open spec fn get_class_type(self, class_id: ClassId) -> AssetType {
        if self.class_type.contains_key(class_id) {
            self.class_type[class_id]
        } else {
            AssetType::Transferrable
        }
    }

    /// Where an asset lives in the token store; `None` for an asset without
    /// an entry and for one that is not bound.
    pub open spec fn get_asset(self, asset_id: AssetId) -> Option<(ClassId, TokenId)> {
        if self.assets.contains_key(asset_id) {
            self.assets[asset_id]
        } else {
            None
        }
    }

    /// The assets of an owner, oldest first; empty for an owner without any.
    pub open spec fn get_assets_by_owner(self, owner: AccountId) -> Seq<AssetId> {
        assets_in(self.assets_by_owner, owner)
    }

    /// Takes the next series id and stores a record under it.  When the
    /// series id counter cannot be advanced, nothing changes.
    pub open spec fn do_create_series(
        self,
        sender: AccountId,
        name: Seq<u8>,
        metadata: Seq<u8>,
    ) -> (State, Result<SeriesId, Error>) {
        match allocate(self.next_series_id) {
            (next_series_id, Ok(series_id)) => (
                State {
                    next_series_id,
                    series: self.series.insert(
                        series_id,
                        SeriesRecord { name, owner: sender, metadata },
                    ),
                    ..self
                },
                Ok(series_id),
            ),
            _ => (self, Err(Error::NoAvailableSeriesId)),
        }
    }

    /// Creates a series for the account behind `origin`: stores the record
    /// under the next series id, counts it, and reports it.  A call that is
    /// refused changes nothing.  An origin without a signer is refused
    /// first, then an exhausted series id counter, then an exhausted series
    /// count.
    pub open spec fn create_series(
        self,
        origin: Origin,
        name: Seq<u8>,
        metadata: Seq<u8>,
    ) -> (State, Result<SeriesId, Error>) {
        match signer_of(origin) {
            Err(error) => (self, Err(error)),
            Ok(sender) => match self.do_create_series(sender, name, metadata) {
                (_, Err(error)) => (self, Err(error)),
                (stored, Ok(series_id)) => match allocate(self.all_series_count) {
                    (_, Err(error)) => (self, Err(error)),
                    (all_series_count, Ok(_)) => (
                        State {
                            all_series_count,
                            events: stored.events.push(Event::NewSeriesCreated(sender, series_id)),
                            ..stored
                        },
                        Ok(series_id),
                    ),
                },
            },
        }
    }

    /// Takes the next asset id.  When the asset id counter cannot be
    /// advanced, nothing changes.
    pub open spec fn allocate_asset_id(self) -> (State, Result<AssetId, Error>) {
        let (next_asset_id, asset_id) = allocate(self.next_asset_id);
        (State { next_asset_id, ..self }, asset_id)
    }

    /// Records that a class belongs to a series.
    pub open spec fn link_class_to_series(self, class_id: ClassId, series_id: SeriesId) -> State {
        State { class_series: self.class_series.insert(class_id, series_id), ..self }
    }

    /// Records the kind of a class.
    pub open spec fn set_class_type(self, class_id: ClassId, asset_type: AssetType) -> State {
        State { class_type: self.class_type.insert(class_id, asset_type), ..self }
    }

    /// Records where an asset lives in the token store.
    pub open spec fn bind_asset(
        self,
        asset_id: AssetId,
        class_id: ClassId,
        token_id: TokenId,
    ) -> State {
        State { assets: self.assets.insert(asset_id, Some((class_id, token_id))), ..self }
    }

    /// Appends an asset to its owner's list.  An asset without an entry is
    /// refused, and nothing changes.
    pub open spec fn record_ownership(
        self,
        owner: AccountId,
        asset_id: AssetId,
    ) -> (State, Result<(), Error>) {
        if self.assets.contains_key(asset_id) {
            (
                State {
                    assets_by_owner: self.assets_by_owner.insert(
                        owner,
                        self.get_assets_by_owner(owner).push(asset_id),
                    ),
                    ..self
                },
                Ok(()),
            )
        } else {
            (self, Err(Error::AssetIdNotFound))
        }
    }
}

} // verus!
