//! The executable registry.
//!
//! [`Pallet`] keeps the persisted state in memory and changes it only
//! through the operations below.  Each operation is proved to do to the
//! state exactly what the model in [`crate::model`] says.

use vstd::prelude::*;
use sp_std::collections::btree_map::BTreeMap;
use sp_std::vec::Vec;
use crate::allocator::Counter;
use crate::error::Error;
use crate::event::Event;
use crate::model::State;
use crate::origin::{ensure_signed, Origin};
use crate::owners::OwnerIndex;
use crate::primitives::{AccountId, AssetId, Balance, ClassId, SeriesId, TokenId};
use crate::types::{AssetType, SeriesData};

verus! {

/// What the host fixes when it sets the registry up.
#[derive(Clone, Copy, Debug)]
pub struct Config {
    /// The minimum balance to create a class.
    pub create_class_deposit: Balance,
    /// The minimum balance to create an asset.
    pub create_asset_deposit: Balance,
    /// The id of the module that owns the registry's tokens.
    pub module_id: [u8; 8],
}

/// The registry of series, classes and assets.
#[derive(Debug)]
pub struct Pallet {
    config: Config,
    next_series_id: Counter,
    all_series: Counter,
    next_asset_id: Counter,
    series: BTreeMap<SeriesId, SeriesData>,
    class_series: BTreeMap<ClassId, SeriesId>,
    class_type: BTreeMap<ClassId, AssetType>,
    assets: BTreeMap<AssetId, Option<(ClassId, TokenId)>>,
    assets_by_owner: OwnerIndex,
    events: Vec<Event>,
}

impl View for Pallet {
    type V = State;

    closed spec fn view(&self) -> State {
        State {
            next_series_id: self.next_series_id@,
            all_series_count: self.all_series@,
            next_asset_id: self.next_asset_id@,
            series: self.series@.map_values(|data: SeriesData| data@),
            class_series: self.class_series@,
            class_type: self.class_type@,
            assets: self.assets@,
            assets_by_owner: self.assets_by_owner@,
            events: self.events@,
        }
    }
}

impl Pallet {
    /// The registry is valid when its indices are and the references
    /// between them all lead somewhere.
    pub closed spec fn wf(&self) -> bool {
        &&& self.assets_by_owner.wf()
        &&& self@.well_formed()
    }

    /// What the host fixed when it set the registry up.
    pub closed spec fn config(&self) -> Config {
        self.config
    }

    /// A valid registry keeps every reference between its indices intact.
    pub proof fn lemma_wf_is_well_formed(&self)
        requires
            self.wf(),
        ensures
            self@.well_formed(),
    {
    }

    /// A registry in which nothing has happened yet.
    pub fn new(config: Config) -> (pallet: Pallet)
        ensures
            pallet.wf(),
            pallet@ == State::empty(),
            pallet.config() == config,
    {
        Pallet::with_counters(config, 0, 0, 0)
    }

    /// A registry without records whose counters stand at the given values.
    pub fn with_counters(
        config: Config,
        next_series_id: u64,
        all_series_count: u64,
        next_asset_id: AssetId,
    ) -> (pallet: Pallet)
        ensures
            pallet.wf(),
            pallet@ == State::starting_at(next_series_id, all_series_count, next_asset_id),
            pallet.config() == config,
    {
        let pallet = Pallet {
            config,
            next_series_id: Counter::starting_at(next_series_id),
            all_series: Counter::starting_at(all_series_count),
            next_asset_id: Counter::starting_at(next_asset_id),
            series: BTreeMap::new(),
            class_series: BTreeMap::new(),
            class_type: BTreeMap::new(),
            assets: BTreeMap::new(),
            assets_by_owner: OwnerIndex::new(),
            events: Vec::new(),
        };
        assert(pallet@ =~= State::starting_at(next_series_id, all_series_count, next_asset_id));
        pallet
    }

    /// Takes the next series id and stores a record under it.  When the
    /// series id counter cannot be advanced, the call is refused with
    /// `NoAvailableSeriesId` and nothing changes.  The series count is left
    /// to the caller.
    pub fn do_create_series(
        &mut self,
        sender: &AccountId,
        name: Vec<u8>,
        metadata: Vec<u8>,
    ) -> (created: Result<SeriesId, Error>)
        requires
            old(self).wf(),
        ensures
            final(self).wf(),
            final(self).config() == old(self).config(),
            (final(self)@, created) == old(self)@.do_create_series(*sender, name@, metadata@),
    {
        broadcast use vstd::laws_cmp::group_laws_cmp;

        match self.next_series_id.allocate_next() {
            Ok(series_id) => {
                let series_data = SeriesData { name, owner: *sender, metadata };
                self.series.insert(series_id, series_data);
                assert(self@ =~= old(self)@.do_create_series(*sender, name@, metadata@).0);
                Ok(series_id)
            },
            Err(_) => Err(Error::NoAvailableSeriesId),
        }
    }

    /// Creates a series for the account behind `origin`.
    ///
    /// On success the record is stored under the next series id, the series
    /// count grows by one, `NewSeriesCreated` is emitted once, and the id is
    /// returned.  The call is refused, and changes nothing, for an origin
    /// without a signer (`NoPermission`), for an exhausted series id counter
    /// (`NoAvailableSeriesId`) and for an exhausted series count
    /// (`NoAvailableId`), in this order.
    pub fn create_series(
        &mut self,
        origin: Origin,
        name: Vec<u8>,
        metadata: Vec<u8>,
    ) -> (created: Result<SeriesId, Error>)
        requires
            old(self).wf(),
        ensures
            final(self).wf(),
            final(self).config() == old(self).config(),
            (final(self)@, created) == old(self)@.create_series(origin, name@, metadata@),
    {
        let sender: AccountId = match ensure_signed(origin) {
            Ok(sender) => sender,
            Err(error) => {
                return Err(error);
            },
        };
        // The new count is worked out first and written last, so that a
        // count that cannot grow costs no write at all.
        let mut all_series: Counter = self.all_series;
        match all_series.allocate_next() {
            Err(error) => {
                if self.next_series_id.is_exhausted() {
                    Err(Error::NoAvailableSeriesId)
                } else {
                    Err(error)
                }
            },
            Ok(_) => match self.do_create_series(&sender, name, metadata) {
                Err(error) => Err(error),
                Ok(series_id) => {
                    self.all_series = all_series;
                    self.events.push(Event::NewSeriesCreated(sender, series_id));
                    assert(self@ =~= old(self)@.create_series(origin, name@, metadata@).0);
                    Ok(series_id)
                },
            },
        }
    }

    /// Takes the next asset id, or refuses with `NoAvailableId` and changes
    /// nothing when the asset id counter cannot be advanced.
    pub fn allocate_asset_id(&mut self) -> (allocated: Result<AssetId, Error>)
        requires
            old(self).wf(),
        ensures
            final(self).wf(),
            final(self).config() == old(self).config(),
            (final(self)@, allocated) == old(self)@.allocate_asset_id(),
    {
        let allocated = self.next_asset_id.allocate_next();
        assert(self@ =~= old(self)@.allocate_asset_id().0);
        allocated
    }

    /// Records that the class `class_id` belongs to the series `series_id`,
    /// which must exist.
    pub fn link_class_to_series(&mut self, class_id: ClassId, series_id: SeriesId)
        requires
            old(self).wf(),
            old(self)@.series.contains_key(series_id),
        ensures
            final(self).wf(),
            final(self).config() == old(self).config(),
            final(self)@ == old(self)@.link_class_to_series(class_id, series_id),
    {
        broadcast use vstd::laws_cmp::group_laws_cmp;

        self.class_series.insert(class_id, series_id);
        assert(self@ =~= old(self)@.link_class_to_series(class_id, series_id));
    }

    /// Records the kind of the class `class_id`, which must belong to a
    /// series.
    pub fn set_class_type(&mut self, class_id: ClassId, asset_type: AssetType)
        requires
            old(self).wf(),
            old(self)@.class_series.contains_key(class_id),
        ensures
            final(self).wf(),
            final(self).config() == old(self).config(),
            final(self)@ == old(self)@.set_class_type(class_id, asset_type),
    {
        broadcast use vstd::laws_cmp::group_laws_cmp;

        self.class_type.insert(class_id, asset_type);
        assert(self@ =~= old(self)@.set_class_type(class_id, asset_type));
    }

    /// Records that the asset `asset_id` is the token `token_id` of the
    /// class `class_id`, which must belong to a series.
    pub fn bind_asset(&mut self, asset_id: AssetId, class_id: ClassId, token_id: TokenId)
        requires
            old(self).wf(),
            old(self)@.class_series.contains_key(class_id),
        ensures
            final(self).wf(),
            final(self).config() == old(self).config(),
            final(self)@ == old(self)@.bind_asset(asset_id, class_id, token_id),
    {
        broadcast use vstd::laws_cmp::group_laws_cmp;

        self.assets.insert(asset_id, Some((class_id, token_id)));
        assert(self@ =~= old(self)@.bind_asset(asset_id, class_id, token_id));
    }

    /// Appends the asset `asset_id` to the assets of `owner`.  Recording the
    /// same asset twice lists it twice.  An asset without an entry in the
    /// asset index is refused with `AssetIdNotFound`, and nothing changes.
    pub fn record_ownership(
        &mut self,
        owner: AccountId,
        asset_id: AssetId,
    ) -> (recorded: Result<(), Error>)
        requires
            old(self).wf(),
        ensures
            final(self).wf(),
            final(self).config() == old(self).config(),
            (final(self)@, recorded) == old(self)@.record_ownership(owner, asset_id),
    {
        broadcast use vstd::laws_cmp::group_laws_cmp;
        broadcast use vstd::std_specs::btree::group_btree_axioms;

        if self.assets.contains_key(&asset_id) {
            self.assets_by_owner.append(owner, asset_id);
            assert(self@ =~= old(self)@.record_ownership(owner, asset_id).0);
            Ok(())
        } else {
            Err(Error::AssetIdNotFound)
        }
    }

    /// The id that the next series gets.
    pub fn next_series_id(&self) -> (next: u64)
        ensures
            next == self@.next_series_id,
    {
        self.next_series_id.current()
    }

    /// How many series were created.
    pub fn all_series_count(&self) -> (count: u64)
        ensures
            count == self@.all_series_count,
    {
        self.all_series.current()
    }

    /// The id that the next asset gets.
    pub fn next_asset_id(&self) -> (next: AssetId)
        ensures
            next == self@.next_asset_id,
    {
        self.next_asset_id.current()
    }

    /// The series with the given id, if there is one.
    pub fn get_series(&self, series_id: SeriesId) -> (found: Option<SeriesData>)
        ensures
            match found {
                Some(data) => self@.get_series(series_id) == Some(data@),
                None => self@.get_series(series_id) is None,
            },
    {
        broadcast use vstd::laws_cmp::group_laws_cmp;
        broadcast use vstd::std_specs::btree::group_btree_axioms;

        match self.series.get(&series_id) {
            Some(data) => Some(data.clone()),
            None => None,
        }
    }

    /// The series that the class `class_id` belongs to, if the registry
    /// knows the class.
    pub fn get_class_series(&self, class_id: ClassId) -> (found: Option<SeriesId>)
        ensures
            found == self@.get_class_series(class_id),
    {
        broadcast use vstd::laws_cmp::group_laws_cmp;
        broadcast use vstd::std_specs::btree::group_btree_axioms;

        match self.class_series.get(&class_id) {
            Some(series_id) => Some(*series_id),
            None => None,
        }
    }

    /// The kind of the class `class_id`: transferrable unless the class has
    /// said otherwise.
    pub fn get_class_type(&self, class_id: ClassId) -> (kind: AssetType)
        ensures
            kind == self@.get_class_type(class_id),
    {
        broadcast use vstd::laws_cmp::group_laws_cmp;
        broadcast use vstd::std_specs::btree::group_btree_axioms;

        match self.class_type.get(&class_id) {
            Some(kind) => *kind,
            None => AssetType::default(),
        }
    }

    /// Where the asset `asset_id` lives in the token store; `None` for an
    /// asset without an entry and for one that is not bound.
    pub fn get_asset(&self, asset_id: AssetId) -> (found: Option<(ClassId, TokenId)>)
        ensures
            found == self@.get_asset(asset_id),
    {
        broadcast use vstd::laws_cmp::group_laws_cmp;
        broadcast use vstd::std_specs::btree::group_btree_axioms;

        match self.assets.get(&asset_id) {
            Some(place) => *place,
            None => None,
        }
    }

    /// The assets of `owner`, oldest first; empty for an owner without any.
    pub fn get_assets_by_owner(&self, owner: &AccountId) -> (assets: Vec<AssetId>)
        requires
            self.wf(),
        ensures
            assets@ == self@.get_assets_by_owner(*owner),
    {
        self.assets_by_owner.assets_of(owner)
    }

    /// The events emitted so far, oldest first.
    pub fn events(&self) -> (events: &Vec<Event>)
        ensures
            events@ == self@.events,
    {
        &self.events
    }

    /// The minimum balance to create a class.
    pub fn create_class_deposit(&self) -> (deposit: Balance)
        ensures
            deposit == self.config().create_class_deposit,
    {
        self.config.create_class_deposit
    }

    /// The minimum balance to create an asset.
    pub fn create_asset_deposit(&self) -> (deposit: Balance)
        ensures
            deposit == self.config().create_asset_deposit,
    {
        self.config.create_asset_deposit
    }

    /// The id of the module that owns the registry's tokens.
    pub fn module_id(&self) -> (id: [u8; 8])
        ensures
            id == self.config().module_id,
    {
        self.config.module_id
    }
}

} // verus!
