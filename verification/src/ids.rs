//! Plain identifiers shared by the services.

use vstd::prelude::*;

verus! {

/// Identifier of an account (the 128 bits of its UUID).
#[derive(Debug, Clone, Copy, PartialEq, Eq, Hash, Structural)]
pub struct AccountId(pub u128);

/// Identifier of an account group (the 128 bits of its UUID).
#[derive(Debug, Clone, Copy, PartialEq, Eq, Hash, Structural)]
pub struct AccountGroupId(pub u128);

/// Identifier of the web that owns an entity (the 128 bits of its UUID).
#[derive(Debug, Clone, Copy, PartialEq, Eq, Hash, Structural)]
pub struct OwnedById(pub u128);

impl OwnedById {
    /// The web owned by an account carries the account's own identifier.
    pub fn from_account_id(account_id: AccountId) -> (owned_by_id: OwnedById)
        ensures
            owned_by_id.0 == account_id.0,
    {
        OwnedById(account_id.0)
    }
}

} // verus!
