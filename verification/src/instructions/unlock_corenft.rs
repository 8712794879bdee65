//! Unlocking a core asset: the flag of its freeze capability is cleared, then the
//! capability is removed.

use vstd::pervasive::unreached;
use vstd::prelude::*;

use crate::error::StakingError;
use crate::identity::Identity;
use crate::ledger::CoreAssetEntry;
use crate::policy::{authorization, authorize};
use crate::registry::{CallOutcome, CoreAsset, RegistryCall, UpdateAuthority};
use crate::state::{Counter, GlobalPool};

verus! {

/// The accounts of a request to unlock a core asset.
#[derive(Clone, Copy, Debug, PartialEq, Eq)]
pub struct UnlockCoreNFT {
    /// The owner of the asset.
    pub owner: Identity,
    /// The acting party, who signs the request and pays for it.
    pub user: Identity,
    /// The asset.
    pub asset: CoreAsset,
    /// The collection the asset belongs to.
    pub collection: Identity,
}

impl UnlockCoreNFT {
    /// Whether the accounts fit together: `owner` must own the asset, and the asset's
    /// update authority must be `collection`.
    pub open spec fn constraints(self) -> Result<(), StakingError> {
        if self.asset.owner != self.owner {
            Err(StakingError::InvalidAdmin)
        } else if self.asset.update_authority != UpdateAuthority::Collection(self.collection) {
            Err(StakingError::ExternalCallFailed)
        } else {
            Ok(())
        }
    }

    /// Whether the request may go ahead in a pool that `admin` administers: the accounts
    /// must fit together, and the acting party must be the owner or the administrator.
    pub open spec fn admission(self, admin: Identity) -> Result<(), StakingError> {
        match self.constraints() {
            Err(e) => Err(e),
            Ok(_) => authorization(self.owner, self.user, admin),
        }
    }

    /// The first call: the flag of the asset's freeze capability is cleared.
    pub open spec fn update_call(self) -> RegistryCall {
        RegistryCall::UpdateFreeze {
            asset: self.asset.key,
            collection: self.collection,
            payer: self.user,
            frozen: false,
        }
    }

    /// The second call: the freeze capability is taken off the asset.
    pub open spec fn remove_call(self) -> RegistryCall {
        RegistryCall::RemoveFreeze {
            asset: self.asset.key,
            collection: self.collection,
            payer: self.user,
        }
    }

    /// Checks that the accounts fit together.
    pub fn validate(&self) -> (r: Result<(), StakingError>)
        ensures
            r == self.constraints(),
    {
        if self.asset.owner != self.owner {
            Err(StakingError::InvalidAdmin)
        } else if !self.asset.update_authority.is_collection(&self.collection) {
            Err(StakingError::ExternalCallFailed)
        } else {
            Ok(())
        }
    }

    /// Checks that the request may go ahead in a pool that `admin` administers.
    pub fn check_admission(&self, admin: &Identity) -> (r: Result<(), StakingError>)
        ensures
            r == self.admission(*admin),
    {
        match self.validate() {
            Err(e) => Err(e),
            Ok(_) => authorize(&self.owner, &self.user, admin),
        }
    }
}

/// How far an unlock of a core asset has come.
#[derive(Clone, Copy, Debug, PartialEq, Eq, Structural)]
pub enum UnlockCoreStep {
    /// Nothing was done yet.
    Init,
    /// The flag was asked to be cleared; the answer is awaited.
    AfterUpdate,
    /// The capability was asked to be removed; the answer is awaited.
    AfterRemove,
    /// The asset carries no freeze capability and is no longer counted.
    Done,
    /// The request failed before any call was carried out; nothing was changed.
    Error(StakingError),
    /// The request failed at its second call: the flag was cleared, the capability still
    /// stands, and the pool was not touched.
    Partial,
}

impl UnlockCoreStep {
    /// The result of the request, once it has one.
    pub open spec fn finished(self) -> Option<Result<(), StakingError>> {
        match self {
            UnlockCoreStep::Done => Some(Ok(())),
            UnlockCoreStep::Error(e) => Some(Err(e)),
            UnlockCoreStep::Partial => Some(Err(StakingError::ExternalCallFailed)),
            _ => None,
        }
    }

    /// How many more times the handler can be asked before the request has a result.
    pub open spec fn turns_left(self) -> nat {
        match self {
            UnlockCoreStep::Init => 3,
            UnlockCoreStep::AfterUpdate => 2,
            UnlockCoreStep::AfterRemove => 1,
            _ => 0,
        }
    }

    /// The result of the request, once it has one.
    pub fn result(&self) -> (r: Option<Result<(), StakingError>>)
        ensures
            r == self.finished(),
    {
        match self {
            UnlockCoreStep::Done => Some(Ok(())),
            UnlockCoreStep::Error(e) => Some(Err(*e)),
            UnlockCoreStep::Partial => Some(Err(StakingError::ExternalCallFailed)),
            _ => None,
        }
    }
}

/// One turn of an unlock of a core asset: the step that follows `step` once the driver
/// reports `response` to the call it was last given, the call to make next, and the pool
/// afterwards.
///
/// The request is admitted first, and nothing is called for one that is not. The flag is
/// cleared before the capability is removed. A call that was not reported as accepted
/// ends the request: in `Error` where it was the first, in `Partial` where it was the
/// second, and what the first call did is not undone. The pool stops counting the asset
/// when the removal was accepted, and not before. A request that has ended stays as it
/// is.
pub open spec fn unlock_corenft_transition(
    ctx: UnlockCoreNFT,
    pool: GlobalPool,
    step: UnlockCoreStep,
    response: Option<CallOutcome>,
) -> (UnlockCoreStep, Option<RegistryCall>, GlobalPool) {
    match step {
        UnlockCoreStep::Init => match ctx.admission(pool.admin) {
            Err(e) => (UnlockCoreStep::Error(e), None, pool),
            Ok(_) => (UnlockCoreStep::AfterUpdate, Some(ctx.update_call()), pool),
        },
        UnlockCoreStep::AfterUpdate => if response == Some(CallOutcome::Accepted) {
            (UnlockCoreStep::AfterRemove, Some(ctx.remove_call()), pool)
        } else {
            (UnlockCoreStep::Error(StakingError::ExternalCallFailed), None, pool)
        },
        UnlockCoreStep::AfterRemove => if response == Some(CallOutcome::Accepted) {
            (UnlockCoreStep::Done, None, pool.decremented(Counter::CoreNft))
        } else {
            (UnlockCoreStep::Partial, None, pool)
        },
        UnlockCoreStep::Done => (UnlockCoreStep::Done, None, pool),
        UnlockCoreStep::Error(e) => (UnlockCoreStep::Error(e), None, pool),
        UnlockCoreStep::Partial => (UnlockCoreStep::Partial, None, pool),
    }
}

/// Takes an unlock of a core asset one turn further. The driver starts with
/// `UnlockCoreStep::Init`, makes each call it is handed on the registry, and comes back
/// with the step it was given and the registry's answer, until no call is handed out.
pub fn unlock_corenft_handler(
    ctx: &UnlockCoreNFT,
    global_pool: &mut GlobalPool,
    step: UnlockCoreStep,
    response: Option<CallOutcome>,
) -> (next: (UnlockCoreStep, Option<RegistryCall>))
    requires
        step == UnlockCoreStep::AfterRemove && response == Some(CallOutcome::Accepted) ==> old(
            global_pool,
        ).count(Counter::CoreNft) > 0,
    ensures
        (next.0, next.1, *final(global_pool)) == unlock_corenft_transition(
            *ctx,
            *old(global_pool),
            step,
            response,
        ),
{
    match step {
        UnlockCoreStep::Init => match ctx.check_admission(&global_pool.admin) {
            Err(e) => (UnlockCoreStep::Error(e), None),
            Ok(_) => {
                let call = RegistryCall::UpdateFreeze {
                    asset: ctx.asset.key,
                    collection: ctx.collection,
                    payer: ctx.user,
                    frozen: false,
                };
                (UnlockCoreStep::AfterUpdate, Some(call))
            },
        },
        UnlockCoreStep::AfterUpdate => match response {
            Some(CallOutcome::Accepted) => {
                let call = RegistryCall::RemoveFreeze {
                    asset: ctx.asset.key,
                    collection: ctx.collection,
                    payer: ctx.user,
                };
                (UnlockCoreStep::AfterRemove, Some(call))
            },
            _ => (UnlockCoreStep::Error(StakingError::ExternalCallFailed), None),
        },
        UnlockCoreStep::AfterRemove => match response {
            Some(CallOutcome::Accepted) => {
                global_pool.decrement(Counter::CoreNft);
                (UnlockCoreStep::Done, None)
            },
            _ => (UnlockCoreStep::Partial, None),
        },
        UnlockCoreStep::Done => (UnlockCoreStep::Done, None),
        UnlockCoreStep::Error(e) => (UnlockCoreStep::Error(e), None),
        UnlockCoreStep::Partial => (UnlockCoreStep::Partial, None),
    }
}

/// What a whole unlock comes to on an asset that its registry holds as `entry`: the
/// result, the pool and the asset afterwards.
///
/// A request that is not admitted changes nothing. A refused update changes nothing. A
/// refused removal leaves the capability on the asset with its flag cleared, and the pool
/// as it was. Else the capability is gone and the pool counts one less.
pub open spec fn unlock_corenft_outcome(
    ctx: UnlockCoreNFT,
    pool: GlobalPool,
    entry: CoreAssetEntry,
) -> (Result<(), StakingError>, GlobalPool, CoreAssetEntry) {
    let updated = entry.after(ctx.update_call());
    match ctx.admission(pool.admin) {
        Err(e) => (Err(e), pool, entry),
        Ok(_) => if !entry.accepts(ctx.update_call()) {
            (Err(StakingError::ExternalCallFailed), pool, entry)
        } else if !updated.accepts(ctx.remove_call()) {
            (Err(StakingError::ExternalCallFailed), pool, updated)
        } else {
            (Ok(()), pool.decremented(Counter::CoreNft), updated.after(ctx.remove_call()))
        },
    }
}

/// Drives a whole unlock of a core asset, with `entry` in the registry's place.
pub fn unlock_corenft_on(
    ctx: &UnlockCoreNFT,
    global_pool: &mut GlobalPool,
    entry: &mut CoreAssetEntry,
) -> (r: Result<(), StakingError>)
    requires
        unlock_corenft_outcome(*ctx, *old(global_pool), *old(entry)).0 is Ok ==> old(
            global_pool,
        ).count(Counter::CoreNft) > 0,
    ensures
        (r, *final(global_pool), *final(entry)) == unlock_corenft_outcome(
            *ctx,
            *old(global_pool),
            *old(entry),
        ),
{
    let ghost pool0 = *global_pool;
    let ghost entry0 = *entry;
    let (first, first_call) = unlock_corenft_handler(ctx, global_pool, UnlockCoreStep::Init, None);
    let mut step = first;
    let mut call = first_call;
    while call.is_some()
        invariant
            unlock_corenft_outcome(*ctx, pool0, entry0).0 is Ok ==> pool0.count(Counter::CoreNft)
                > 0,
            call is Some ==> step == UnlockCoreStep::AfterUpdate || step
                == UnlockCoreStep::AfterRemove,
            step == UnlockCoreStep::AfterUpdate ==> {
                &&& call == Some(ctx.update_call())
                &&& ctx.admission(pool0.admin) is Ok
                &&& *global_pool == pool0
                &&& *entry == entry0
            },
            step == UnlockCoreStep::AfterRemove ==> {
                &&& call == Some(ctx.remove_call())
                &&& ctx.admission(pool0.admin) is Ok
                &&& entry0.accepts(ctx.update_call())
                &&& *global_pool == pool0
                &&& *entry == entry0.after(ctx.update_call())
            },
            call is None ==> {
                &&& step.finished() is Some
                &&& (step.finished()->0, *global_pool, *entry) == unlock_corenft_outcome(
                    *ctx,
                    pool0,
                    entry0,
                )
            },
        decreases step.turns_left(),
    {
        let outcome = entry.apply(&call.unwrap());
        let (next, next_call) = unlock_corenft_handler(ctx, global_pool, step, Some(outcome));
        step = next;
        call = next_call;
    }
    match step.result() {
        Some(r) => r,
        None => unreached(),
    }
}

} // verus!
