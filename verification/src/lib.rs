//! A custodial locking service for two kinds of non-fungible assets.
//!
//! A core asset is locked by a freeze capability that the service has attached to it; a
//! programmable asset is locked by the service itself, as the asset's staking delegate.
//! The assets live in two registries that this crate does not own. It decides who may ask
//! for what, which calls go to a registry and in what order, and it keeps the pool's
//! count of what is locked. The caller is the driver: it starts a request at its first
//! step, makes each call it is handed, and reports the registry's answer, until the
//! request has a result. No call is undone when a later one fails.

pub mod error;
pub mod guarantees;
pub mod identity;
pub mod instructions;
pub mod ledger;
pub mod metadata;
pub mod policy;
pub mod registry;
pub mod state;

use vstd::prelude::*;

use crate::error::StakingError;
use crate::identity::Identity;
use crate::instructions::lock_corenft::{
    lock_corenft_handler, lock_corenft_transition, LockCoreNFT, LockCoreStep,
};
use crate::instructions::lock_pnft::{
    lock_pnft_handler, lock_pnft_transition, LockPNFT, LockPnftStep,
};
use crate::instructions::unlock_corenft::{
    unlock_corenft_handler, unlock_corenft_transition, UnlockCoreNFT, UnlockCoreStep,
};
use crate::instructions::unlock_pnft::{
    unlock_pnft_handler, unlock_pnft_transition, UnlockPNFT, UnlockPnftStep,
};
use crate::registry::{CallOutcome, RegistryCall};
use crate::state::{Counter, GlobalPool};

verus! {

/// The owner of a core asset locks it, for as long as they want.
pub fn lock_corenft(
    ctx: &LockCoreNFT,
    global_pool: &mut GlobalPool,
    step: LockCoreStep,
    response: Option<CallOutcome>,
) -> (next: (LockCoreStep, Option<RegistryCall>))
    requires
        step == LockCoreStep::AfterAttach && response == Some(CallOutcome::Accepted) ==> old(
            global_pool,
        ).count(Counter::CoreNft) < u64::MAX,
    ensures
        (next.0, next.1, *final(global_pool)) == lock_corenft_transition(
            *ctx,
            *old(global_pool),
            step,
            response,
        ),
{
    lock_corenft_handler(ctx, global_pool, step, response)
}

/// The owner of a locked core asset, or the administrator, unlocks it.
pub fn unlock_corenft(
    ctx: &UnlockCoreNFT,
    global_pool: &mut GlobalPool,
    step: UnlockCoreStep,
    response: Option<CallOutcome>,
) -> (next: (UnlockCoreStep, Option<RegistryCall>))
    requires
        step == UnlockCoreStep::AfterRemove && response == Some(CallOutcome::Accepted) ==> old(
            global_pool,
        ).count(Counter::CoreNft) > 0,
    ensures
        (next.0, next.1, *final(global_pool)) == unlock_corenft_transition(
            *ctx,
            *old(global_pool),
            step,
            response,
        ),
{
    unlock_corenft_handler(ctx, global_pool, step, response)
}

/// The owner of a programmable asset locks it, if it belongs with `expected`.
pub fn lock_pnft(
    ctx: &LockPNFT,
    expected: &Identity,
    global_pool: &mut GlobalPool,
    step: LockPnftStep,
    response: Option<CallOutcome>,
) -> (next: (LockPnftStep, Option<RegistryCall>))
    requires
        step == LockPnftStep::AfterLock && response == Some(CallOutcome::Accepted) ==> old(
            global_pool,
        ).count(Counter::Pnft) < u64::MAX,
    ensures
        (next.0, next.1, *final(global_pool)) == lock_pnft_transition(
            *ctx,
            *expected,
            *old(global_pool),
            step,
            response,
        ),
        step == LockPnftStep::Init && ctx.constraints() is Ok
            && ctx.mint_metadata.holds_no_record() ==> next.0 == LockPnftStep::Error(
            StakingError::MetadataParseError,
        ),
{
    lock_pnft_handler(ctx, expected, global_pool, step, response)
}

/// The owner of a locked programmable asset, or the administrator, unlocks it.
pub fn unlock_pnft(
    ctx: &UnlockPNFT,
    global_pool: &mut GlobalPool,
    step: UnlockPnftStep,
    response: Option<CallOutcome>,
) -> (next: (UnlockPnftStep, Option<RegistryCall>))
    requires
        step == UnlockPnftStep::AfterRevoke && response == Some(CallOutcome::Accepted) ==> old(
            global_pool,
        ).count(Counter::Pnft) > 0,
    ensures
        (next.0, next.1, *final(global_pool)) == unlock_pnft_transition(
            *ctx,
            *old(global_pool),
            step,
            response,
        ),
{
    unlock_pnft_handler(ctx, global_pool, step, response)
}

} // verus!
