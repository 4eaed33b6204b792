//! The records that the registry stores, and the closed sets of kinds that
//! a class can have.

use vstd::prelude::*;
use sp_std::vec::Vec;
use crate::primitives::{AccountId, Balance};

verus! {

/// Whether the assets of a class can change hands.
#[derive(Clone, Copy, Debug, PartialEq, Eq, Structural)]
pub enum AssetType {
    Transferrable,
    BoundToAddress,
}

impl AssetType {
    /// True for `Transferrable` and for nothing else.
    pub fn is_transferrable(&self) -> (yes: bool)
        ensures
            yes == (*self == AssetType::Transferrable),
    {
        match *self {
            AssetType::Transferrable => true,
            _ => false,
        }
    }
}

impl Default for AssetType {
    /// A class is transferrable unless it says otherwise.
    fn default() -> (kind: AssetType)
        ensures
            kind == AssetType::Transferrable,
    {
        AssetType::Transferrable
    }
}

/// What the assets of a class are used for.
#[derive(Clone, Copy, Debug, PartialEq, Eq, Structural)]
pub enum CollectionType {
    Collectable,
    Consumable,
    Wearable,
    Usable,
}

impl CollectionType {
    /// True for `Collectable` and for nothing else.
    pub fn is_collectable(&self) -> (yes: bool)
        ensures
            yes == (*self == CollectionType::Collectable),
    {
        match *self {
            CollectionType::Collectable => true,
            _ => false,
        }
    }

    /// True for `Consumable` and for nothing else.
    pub fn is_consumable(&self) -> (yes: bool)
        ensures
            yes == (*self == CollectionType::Consumable),
    {
        match *self {
            CollectionType::Consumable => true,
            _ => false,
        }
    }

    /// True for `Wearable` and for nothing else.
    pub fn is_wearable(&self) -> (yes: bool)
        ensures
            yes == (*self == CollectionType::Wearable),
    {
        match *self {
            CollectionType::Wearable => true,
            _ => false,
        }
    }

    /// True for `Usable` and for nothing else.
    pub fn is_usable(&self) -> (yes: bool)
        ensures
            yes == (*self == CollectionType::Usable),
    {
        match *self {
            CollectionType::Usable => true,
            _ => false,
        }
    }
}

impl Default for CollectionType {
    /// A class is collectable unless it says otherwise.
    fn default() -> (kind: CollectionType)
        ensures
            kind == CollectionType::Collectable,
    {
        CollectionType::Collectable
    }
}

/// What a series record says, as mathematical values.
pub struct SeriesRecord {
    pub name: Seq<u8>,
    pub owner: AccountId,
    pub metadata: Seq<u8>,
}

/// A series: a named group of classes, owned by the account that created it.
#[derive(Debug, PartialEq, Eq)]
pub struct SeriesData {
    pub name: Vec<u8>,
    pub owner: AccountId,
    pub metadata: Vec<u8>,
}

impl View for SeriesData {
    type V = SeriesRecord;

    open spec fn view(&self) -> SeriesRecord {
        SeriesRecord { name: self.name@, owner: self.owner, metadata: self.metadata@ }
    }
}

impl Clone for SeriesData {
    /// A copy that says the same as the series it was made from.
    fn clone(&self) -> (copy: SeriesData)
        ensures
            copy@ == self@,
    {
        SeriesData {
            name: self.name.clone(),
            owner: self.owner,
            metadata: self.metadata.clone(),
        }
    }
}

/// A class: the template of a kind of asset.  The token store holds one of
/// these for each class.
#[derive(Clone, Debug, PartialEq, Eq)]
pub struct ClassData {
    pub deposit: Balance,
    pub metadata: Vec<u8>,
    pub asset_type: AssetType,
    pub collection_type: CollectionType,
    pub total_supply: u64,
    pub initial_supply: u64,
}

/// An asset: one issued item.  The token store holds one of these for each
/// token.
#[derive(Clone, Debug, PartialEq, Eq)]
pub struct AssetData {
    pub deposit: Balance,
    pub name: Vec<u8>,
    pub metadata: Vec<u8>,
}

} // verus!
