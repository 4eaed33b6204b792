//! A registry of series, classes and assets for non-fungible items.
//!
//! The registry is a deterministic state machine: every operation either
//! applies all of its writes or none of them, and every counter is advanced
//! with an overflow check.

pub mod allocator;
pub mod error;
pub mod event;
pub mod laws;
pub mod model;
pub mod origin;
pub mod owners;
pub mod pallet;
pub mod primitives;
pub mod types;

pub use allocator::Counter;
pub use error::Error;
pub use event::Event;
pub use origin::{ensure_signed, Origin};
pub use pallet::{Config, Pallet};
pub use primitives::{
    AccountId, Amount, AssetId, AuctionId, Balance, BlockNumber, ClassId, CurrencyId, GameId,
    ItemId, SeriesId, TokenId,
};
pub use types::{AssetData, AssetType, ClassData, CollectionType, SeriesData};
