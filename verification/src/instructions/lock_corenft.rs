//! Locking a core asset: one call, which attaches a frozen freeze capability.

use vstd::pervasive::unreached;
use vstd::prelude::*;

use crate::error::StakingError;
use crate::identity::Identity;
use crate::ledger::CoreAssetEntry;
use crate::registry::{CallOutcome, CoreAsset, RegistryCall, UpdateAuthority};
use crate::state::{Counter, GlobalPool};

verus! {

/// The accounts of a request to lock a core asset.
#[derive(Clone, Copy, Debug, PartialEq, Eq)]
pub struct LockCoreNFT {
    /// The owner of the asset, who signs the request.
    pub owner: Identity,
    /// The party that signs the request beside the owner and pays for it.
    pub user: Identity,
    /// The asset.
    pub asset: CoreAsset,
    /// The collection the asset is to belong to.
    pub collection: Identity,
}

impl LockCoreNFT {
    /// Whether the accounts fit together: `owner` must own the asset, and the asset's
    /// update authority must be `collection`.
    pub open spec fn constraints(self) -> Result<(), StakingError> {
        if self.asset.owner != self.owner {
            Err(StakingError::InvalidAdmin)
        } else if self.asset.update_authority != UpdateAuthority::Collection(self.collection) {
            Err(StakingError::ExternalCallFailed)
        } else {
            Ok(())
        }
    }

    /// The one call: a freeze capability is attached to the asset, frozen, at the
    /// payer's cost.
    pub open spec fn attach_call(self) -> RegistryCall {
        RegistryCall::AttachFreeze {
            asset: self.asset.key,
            collection: self.collection,
            payer: self.user,
            frozen: true,
        }
    }

    /// Checks that the accounts fit together.
    pub fn validate(&self) -> (r: Result<(), StakingError>)
        ensures
            r == self.constraints(),
    {
        if self.asset.owner != self.owner {
            Err(StakingError::InvalidAdmin)
        } else if !self.asset.update_authority.is_collection(&self.collection) {
            Err(StakingError::ExternalCallFailed)
        } else {
            Ok(())
        }
    }
}

/// How far a lock of a core asset has come.
#[derive(Clone, Copy, Debug, PartialEq, Eq, Structural)]
pub enum LockCoreStep {
    /// Nothing was done yet.
    Init,
    /// The freeze capability was asked for; the answer is awaited.
    AfterAttach,
    /// The asset is frozen and counted.
    Done,
    /// The request failed; nothing was changed.
    Error(StakingError),
}

impl LockCoreStep {
    /// The result of the request, once it has one.
    pub open spec fn finished(self) -> Option<Result<(), StakingError>> {
        match self {
            LockCoreStep::Done => Some(Ok(())),
            LockCoreStep::Error(e) => Some(Err(e)),
            _ => None,
        }
    }

    /// How many more times the handler can be asked before the request has a result.
    pub open spec fn turns_left(self) -> nat {
        match self {
            LockCoreStep::Init => 2,
            LockCoreStep::AfterAttach => 1,
            _ => 0,
        }
    }

    /// The result of the request, once it has one.
    pub fn result(&self) -> (r: Option<Result<(), StakingError>>)
        ensures
            r == self.finished(),
    {
        match self {
            LockCoreStep::Done => Some(Ok(())),
            LockCoreStep::Error(e) => Some(Err(*e)),
            _ => None,
        }
    }
}

/// One turn of a lock of a core asset: the step that follows `step` once the driver
/// reports `response` to the call it was last given, the call to make next, and the pool
/// afterwards.
///
/// Nothing is called for accounts that do not fit together. A call that was not reported
/// as accepted ends the request. The pool counts the asset when the capability was
/// attached, and not before. A request that has ended stays as it is.
pub open spec fn lock_corenft_transition(
    ctx: LockCoreNFT,
    pool: GlobalPool,
    step: LockCoreStep,
    response: Option<CallOutcome>,
) -> (LockCoreStep, Option<RegistryCall>, GlobalPool) {
    match step {
        LockCoreStep::Init => match ctx.constraints() {
            Err(e) => (LockCoreStep::Error(e), None, pool),
            Ok(_) => (LockCoreStep::AfterAttach, Some(ctx.attach_call()), pool),
        },
        LockCoreStep::AfterAttach => if response == Some(CallOutcome::Accepted) {
            (LockCoreStep::Done, None, pool.incremented(Counter::CoreNft))
        } else {
            (LockCoreStep::Error(StakingError::ExternalCallFailed), None, pool)
        },
        LockCoreStep::Done => (LockCoreStep::Done, None, pool),
        LockCoreStep::Error(e) => (LockCoreStep::Error(e), None, pool),
    }
}

/// Takes a lock of a core asset one turn further. The driver starts with
/// `LockCoreStep::Init`, makes each call it is handed on the registry, and comes back with
/// the step it was given and the registry's answer, until no call is handed out.
pub fn lock_corenft_handler(
    ctx: &LockCoreNFT,
    global_pool: &mut GlobalPool,
    step: LockCoreStep,
    response: Option<CallOutcome>,
) -> (next: (LockCoreStep, Option<RegistryCall>))
    requires
        step == LockCoreStep::AfterAttach && response == Some(CallOutcome::Accepted) ==> old(
            global_pool,
        ).count(Counter::CoreNft) < u64::MAX,
    ensures
        (next.0, next.1, *final(global_pool)) == lock_corenft_transition(
            *ctx,
            *old(global_pool),
            step,
            response,
        ),
{
    match step {
        LockCoreStep::Init => match ctx.validate() {
            Err(e) => (LockCoreStep::Error(e), None),
            Ok(_) => {
                let call = RegistryCall::AttachFreeze {
                    asset: ctx.asset.key,
                    collection: ctx.collection,
                    payer: ctx.user,
                    frozen: true,
                };
                (LockCoreStep::AfterAttach, Some(call))
            },
        },
        LockCoreStep::AfterAttach => match response {
            Some(CallOutcome::Accepted) => {
                global_pool.increment(Counter::CoreNft);
                (LockCoreStep::Done, None)
            },
            _ => (LockCoreStep::Error(StakingError::ExternalCallFailed), None),
        },
        LockCoreStep::Done => (LockCoreStep::Done, None),
        LockCoreStep::Error(e) => (LockCoreStep::Error(e), None),
    }
}

/// What a whole lock comes to on an asset that its registry holds as `entry`: the result,
/// the pool and the asset afterwards.
///
/// Accounts that do not fit together change nothing, and neither does a refused
/// capability. Else the asset carries the capability, frozen, and is counted.
pub open spec fn lock_corenft_outcome(ctx: LockCoreNFT, pool: GlobalPool, entry: CoreAssetEntry) -> (
    Result<(), StakingError>,
    GlobalPool,
    CoreAssetEntry,
) {
    match ctx.constraints() {
        Err(e) => (Err(e), pool, entry),
        Ok(_) => if !entry.accepts(ctx.attach_call()) {
            (Err(StakingError::ExternalCallFailed), pool, entry)
        } else {
            (Ok(()), pool.incremented(Counter::CoreNft), entry.after(ctx.attach_call()))
        },
    }
}

/// Drives a whole lock of a core asset, with `entry` in the registry's place.
pub fn lock_corenft_on(ctx: &LockCoreNFT, global_pool: &mut GlobalPool, entry: &mut CoreAssetEntry) -> (r:
    Result<(), StakingError>)
    requires
        old(global_pool).count(Counter::CoreNft) < u64::MAX,
    ensures
        (r, *final(global_pool), *final(entry)) == lock_corenft_outcome(
            *ctx,
            *old(global_pool),
            *old(entry),
        ),
{
    let ghost pool0 = *global_pool;
    let ghost entry0 = *entry;
    let (first, first_call) = lock_corenft_handler(ctx, global_pool, LockCoreStep::Init, None);
    let mut step = first;
    let mut call = first_call;
    while call.is_some()
        invariant
            pool0.count(Counter::CoreNft) < u64::MAX,
            call is Some ==> step == LockCoreStep::AfterAttach,
            step == LockCoreStep::AfterAttach ==> {
                &&& call == Some(ctx.attach_call())
                &&& ctx.constraints() is Ok
                &&& *global_pool == pool0
                &&& *entry == entry0
            },
            call is None ==> {
                &&& step.finished() is Some
                &&& (step.finished()->0, *global_pool, *entry) == lock_corenft_outcome(
                    *ctx,
                    pool0,
                    entry0,
                )
            },
        decreases step.turns_left(),
    {
        let outcome = entry.apply(&call.unwrap());
        let (next, next_call) = lock_corenft_handler(ctx, global_pool, step, Some(outcome));
        step = next;
        call = next_call;
    }
    match step.result() {
        Some(r) => r,
        None => unreached(),
    }
}

} // verus!
