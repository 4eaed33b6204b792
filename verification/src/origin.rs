//! Where a request comes from, and the check that a signed account made it.

use vstd::prelude::*;
use crate::error::Error;
use crate::primitives::AccountId;

verus! {

/// The origin of a request, as the host has already established it.
#[derive(Clone, Copy, Debug, PartialEq, Eq)]
pub enum Origin {
    /// The system itself ordered the request.
    Root,
    /// The account that signed the request.
    Signed(AccountId),
    /// Nobody signed the request.
    Anonymous,
}

/// The account behind a signed origin; every other origin has no permission.
pub open spec fn signer_of(origin: Origin) -> Result<AccountId, Error> {
    match origin {
        Origin::Signed(who) => Ok(who),
        _ => Err(Error::NoPermission),
    }
}

/// Ensures that `origin` is a signed account and returns that account.
pub fn ensure_signed(origin: Origin) -> (signer: Result<AccountId, Error>)
    ensures
        signer == signer_of(origin),
{
    match origin {
        Origin::Signed(who) => Ok(who),
        _ => Err(Error::NoPermission),
    }
}

} // verus!
