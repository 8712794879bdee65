//! The two kinds of asset as their registries hold them, and what each call does to
//! them.

use vstd::prelude::*;

use crate::identity::Identity;
use crate::registry::{CallOutcome, RegistryCall};

verus! {

/// A core asset as its registry holds it, as far as the calls of this service touch it.
///
/// The registries are not part of this service. These two records say what the service
/// takes each call to do once a registry accepts it, and when it takes a registry to turn
/// a call down; they serve a driver that has no registry at hand, and they give the
/// guarantees of this crate their meaning.
#[derive(Clone, Copy, Debug, PartialEq, Eq)]
pub struct CoreAssetEntry {
    /// The asset's address.
    pub key: Identity,
    /// The freeze capability: `None` while the asset carries none, else its flag.
    pub freeze: Option<bool>,
}

impl CoreAssetEntry {
    /// Whether the registry carries `call` out on this asset: the call must name the
    /// asset, a capability is attached only where none is, and changed or removed only
    /// where one is.
    pub open spec fn accepts(self, call: RegistryCall) -> bool {
        match call {
            RegistryCall::AttachFreeze { asset, .. } => asset == self.key && self.freeze is None,
            RegistryCall::UpdateFreeze { asset, .. } => asset == self.key && self.freeze is Some,
            RegistryCall::RemoveFreeze { asset, .. } => asset == self.key && self.freeze is Some,
            _ => false,
        }
    }

    /// The asset after `call`: changed as the call asks where the registry accepts it,
    /// untouched where it does not.
    pub open spec fn after(self, call: RegistryCall) -> CoreAssetEntry {
        if !self.accepts(call) {
            self
        } else {
            match call {
                RegistryCall::AttachFreeze { frozen, .. } => CoreAssetEntry {
                    freeze: Some(frozen),
                    ..self
                },
                RegistryCall::UpdateFreeze { frozen, .. } => CoreAssetEntry {
                    freeze: Some(frozen),
                    ..self
                },
                _ => CoreAssetEntry { freeze: None, ..self },
            }
        }
    }

    /// The registry's answer to `call`.
    pub open spec fn answer(self, call: RegistryCall) -> CallOutcome {
        if self.accepts(call) {
            CallOutcome::Accepted
        } else {
            CallOutcome::Rejected
        }
    }

    /// Makes `call` on this asset and says whether it was carried out.
    pub fn apply(&mut self, call: &RegistryCall) -> (outcome: CallOutcome)
        ensures
            outcome == old(self).answer(*call),
            *final(self) == old(self).after(*call),
    {
        match call {
            RegistryCall::AttachFreeze { asset, frozen, .. } => {
                if *asset == self.key && self.freeze.is_none() {
                    self.freeze = Some(*frozen);
                    CallOutcome::Accepted
                } else {
                    CallOutcome::Rejected
                }
            },
            RegistryCall::UpdateFreeze { asset, frozen, .. } => {
                if *asset == self.key && self.freeze.is_some() {
                    self.freeze = Some(*frozen);
                    CallOutcome::Accepted
                } else {
                    CallOutcome::Rejected
                }
            },
            RegistryCall::RemoveFreeze { asset, .. } => {
                if *asset == self.key && self.freeze.is_some() {
                    self.freeze = None;
                    CallOutcome::Accepted
                } else {
                    CallOutcome::Rejected
                }
            },
            _ => CallOutcome::Rejected,
        }
    }
}

/// A programmable asset as its registry holds it, as far as the calls of this service
/// touch it: the delegate and the lock of its token record.
#[derive(Clone, Copy, Debug, PartialEq, Eq)]
pub struct PnftEntry {
    /// The asset's mint.
    pub mint: Identity,
    /// The staking delegate, if one is granted.
    pub delegate: Option<Identity>,
    /// Whether the asset is locked.
    pub locked: bool,
}

impl PnftEntry {
    /// Whether the registry carries `call` out on this asset: the call must name the
    /// asset's mint; a delegate is granted only where none is and the asset is unlocked;
    /// only the delegate locks and unlocks; and only the delegation that stands, on an
    /// unlocked asset, is revoked.
    pub open spec fn accepts(self, call: RegistryCall) -> bool {
        match call {
            RegistryCall::GrantDelegate { token, .. } => {
                token.mint == self.mint && self.delegate is None && !self.locked
            },
            RegistryCall::Lock { token, authority, .. } => {
                token.mint == self.mint && self.delegate == Some(authority.address)
                    && !self.locked
            },
            RegistryCall::Unlock { token, authority, .. } => {
                token.mint == self.mint && self.delegate == Some(authority.address)
                    && self.locked
            },
            RegistryCall::RevokeDelegate { token, delegate, .. } => {
                token.mint == self.mint && self.delegate == Some(delegate) && !self.locked
            },
            _ => false,
        }
    }

    /// The asset after `call`: changed as the call asks where the registry accepts it,
    /// untouched where it does not.
    pub open spec fn after(self, call: RegistryCall) -> PnftEntry {
        if !self.accepts(call) {
            self
        } else {
            match call {
                RegistryCall::GrantDelegate { delegate, .. } => PnftEntry {
                    delegate: Some(delegate),
                    ..self
                },
                RegistryCall::Lock { .. } => PnftEntry { locked: true, ..self },
                RegistryCall::Unlock { .. } => PnftEntry { locked: false, ..self },
                _ => PnftEntry { delegate: None, ..self },
            }
        }
    }

    /// The registry's answer to `call`.
    pub open spec fn answer(self, call: RegistryCall) -> CallOutcome {
        if self.accepts(call) {
            CallOutcome::Accepted
        } else {
            CallOutcome::Rejected
        }
    }

    /// Whether `holder` is the delegate on record.
    fn delegate_is(&self, holder: &Identity) -> (r: bool)
        ensures
            r == (self.delegate == Some(*holder)),
    {
        match &self.delegate {
            Some(current) => *current == *holder,
            None => false,
        }
    }

    /// Makes `call` on this asset and says whether it was carried out.
    pub fn apply(&mut self, call: &RegistryCall) -> (outcome: CallOutcome)
        ensures
            outcome == old(self).answer(*call),
            *final(self) == old(self).after(*call),
    {
        match call {
            RegistryCall::GrantDelegate { token, delegate, .. } => {
                if token.mint == self.mint && self.delegate.is_none() && !self.locked {
                    self.delegate = Some(*delegate);
                    CallOutcome::Accepted
                } else {
                    CallOutcome::Rejected
                }
            },
            RegistryCall::Lock { token, authority, .. } => {
                if token.mint == self.mint && self.delegate_is(&authority.address)
                    && !self.locked {
                    self.locked = true;
                    CallOutcome::Accepted
                } else {
                    CallOutcome::Rejected
                }
            },
            RegistryCall::Unlock { token, authority, .. } => {
                if token.mint == self.mint && self.delegate_is(&authority.address)
                    && self.locked {
                    self.locked = false;
                    CallOutcome::Accepted
                } else {
                    CallOutcome::Rejected
                }
            },
            RegistryCall::RevokeDelegate { token, delegate, .. } => {
                if token.mint == self.mint && self.delegate_is(delegate) && !self.locked {
                    self.delegate = None;
                    CallOutcome::Accepted
                } else {
                    CallOutcome::Rejected
                }
            },
            _ => CallOutcome::Rejected,
        }
    }
}

} // verus!
