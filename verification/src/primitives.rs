//! Identifier and balance types shared by the whole registry.

use vstd::prelude::*;
use vstd::std_specs::cmp::PartialEqSpecImpl;

verus! {

/// An index to a block.
pub type BlockNumber = u64;

/// Balance of an account.
pub type Balance = u128;

/// Game id.
pub type GameId = u64;

/// Signed amount of a transaction.
pub type Amount = i128;

/// Currency id.
pub type CurrencyId = u32;

/// Id of a series, a named group of classes.
pub type SeriesId = u64;

/// Id of an asset, fungible or not, as this registry numbers them.
pub type AssetId = u64;

/// Auction id.
pub type AuctionId = u64;

/// Id of a class in the token store that holds the class and token data.
pub type ClassId = u32;

/// Id of a token inside its class, in the same token store.
pub type TokenId = u64;

/// The identity of an account: always 32 bytes.
///
/// The registry never looks inside an account id; it only stores ids and
/// tells them apart.
#[derive(Clone, Copy, Debug)]
pub struct AccountId(pub [u8; 32]);

impl AccountId {
    /// The account with the given 32 bytes.
    pub fn new(bytes: [u8; 32]) -> (account: AccountId)
        ensures
            account == AccountId(bytes),
    {
        AccountId(bytes)
    }

    /// The 32 bytes of the account.
    pub fn as_bytes(&self) -> (bytes: &[u8; 32])
        ensures
            *bytes == self.0,
    {
        &self.0
    }
}

impl PartialEq for AccountId {
    /// Two accounts are the same when all 32 bytes agree.
    fn eq(&self, other: &AccountId) -> (same: bool) {
        let mut i: usize = 0;
        while i < 32
            invariant
                i <= 32,
                forall|j: int| 0 <= j < i ==> self.0[j] == other.0[j],
            decreases 32 - i,
        {
            if self.0[i] != other.0[i] {
                return false;
            }
            i += 1;
        }
        assert(self.0 =~= other.0);
        true
    }
}

impl PartialEqSpecImpl for AccountId {
    open spec fn obeys_eq_spec() -> bool {
        true
    }

    open spec fn eq_spec(&self, other: &AccountId) -> bool {
        *self == *other
    }
}

impl Eq for AccountId {

}

/// Public item id for an auction.
#[derive(Clone, Copy, Debug, PartialEq, Eq, Structural)]
pub enum ItemId {
    NFT(AssetId),
    Block(u64),
}

} // verus!
