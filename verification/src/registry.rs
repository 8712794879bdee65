//! What the service exchanges with the two asset registries: the records it reads, the
//! calls it asks for and the answers it takes.

use vstd::prelude::*;

use crate::identity::Identity;

verus! {

/// Who may change a core asset, as the asset's record says.
#[derive(Clone, Copy, Debug, PartialEq, Eq)]
pub enum UpdateAuthority {
    /// No one: the asset can no longer be changed.
    Nobody,
    /// One address.
    Address(Identity),
    /// Whoever may change this collection.
    Collection(Identity),
}

impl UpdateAuthority {
    /// Whether this authority is the collection `collection`.
    pub fn is_collection(&self, collection: &Identity) -> (r: bool)
        ensures
            r == (*self == UpdateAuthority::Collection(*collection)),
    {
        match self {
            UpdateAuthority::Collection(named) => *named == *collection,
            _ => false,
        }
    }
}

/// What the service reads of a core asset's record.
#[derive(Clone, Copy, Debug, PartialEq, Eq)]
pub struct CoreAsset {
    /// The asset's own address.
    pub key: Identity,
    /// Its owner on record.
    pub owner: Identity,
    /// Its update authority on record.
    pub update_authority: UpdateAuthority,
}

/// What the service reads of a token account.
#[derive(Clone, Copy, Debug, PartialEq, Eq)]
pub struct TokenAccount {
    /// The account's own address.
    pub key: Identity,
    /// The mint whose token it holds.
    pub mint: Identity,
    /// Who has authority over the account: the owner of the asset.
    pub owner: Identity,
}

/// The accounts that every call on a programmable asset names.
#[derive(Clone, Copy, Debug, PartialEq, Eq)]
pub struct TokenBundle {
    pub mint: Identity,
    pub token_account: Identity,
    pub metadata: Identity,
    pub edition: Identity,
    pub token_record: Identity,
    pub rule_set: Identity,
}

/// The service's own signing authority: an address derived from the service's fixed seed,
/// and the bump that completes the derivation. Handing it to a registry stands in the place
/// of a signature.
#[derive(Clone, Copy, Debug, PartialEq, Eq)]
pub struct ServiceAuthority {
    pub address: Identity,
    pub bump: u8,
}

/// A call that the service asks its driver to make on one of the two asset registries.
#[derive(Clone, Copy, Debug, PartialEq, Eq)]
#[allow(inconsistent_fields)]
pub enum RegistryCall {
    /// Attach a freeze capability to a core asset, with the given flag.
    AttachFreeze { asset: Identity, collection: Identity, payer: Identity, frozen: bool },
    /// Set the flag of the freeze capability that a core asset carries.
    UpdateFreeze { asset: Identity, collection: Identity, payer: Identity, frozen: bool },
    /// Take the freeze capability off a core asset.
    RemoveFreeze { asset: Identity, collection: Identity, payer: Identity },
    /// Make `delegate` the staking delegate of a programmable asset, for `amount` units,
    /// on the signature of `authority`.
    GrantDelegate {
        token: TokenBundle,
        delegate: Identity,
        amount: u64,
        authority: Identity,
        payer: Identity,
    },
    /// Lock a programmable asset, on the service's authority.
    Lock { token: TokenBundle, token_owner: Identity, authority: ServiceAuthority, payer: Identity },
    /// Unlock a programmable asset, on the service's authority.
    Unlock {
        token: TokenBundle,
        token_owner: Identity,
        authority: ServiceAuthority,
        payer: Identity,
    },
    /// Take the staking delegation back from `delegate`, on the signature of `authority`.
    RevokeDelegate { token: TokenBundle, delegate: Identity, authority: Identity, payer: Identity },
}

/// What a registry answered to a call.
#[derive(Clone, Copy, Debug, PartialEq, Eq, Structural)]
pub enum CallOutcome {
    /// The registry carried the call out.
    Accepted,
    /// The registry turned the call down, and changed nothing.
    Rejected,
}

} // verus!
