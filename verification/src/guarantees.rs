//! What the service guarantees, stated and proved.
//!
//! A statement that begins with "whatever a registry answers" holds of every driver and
//! every registry. A statement about what becomes of an asset is made of the asset as
//! `crate::ledger` records it, that is, of a registry that answers each call as that
//! module says.

use vstd::prelude::*;

use crate::error::StakingError;
use crate::identity::Identity;
use crate::instructions::lock_corenft::{
    lock_corenft_outcome, lock_corenft_transition, LockCoreNFT, LockCoreStep,
};
use crate::instructions::lock_pnft::{
    lock_pnft_outcome, lock_pnft_transition, LockPNFT, LockPnftStep,
};
use crate::instructions::unlock_corenft::{
    unlock_corenft_outcome, unlock_corenft_transition, UnlockCoreNFT, UnlockCoreStep,
};
use crate::instructions::unlock_pnft::{
    unlock_pnft_outcome, unlock_pnft_transition, UnlockPNFT, UnlockPnftStep,
};
use crate::ledger::{CoreAssetEntry, PnftEntry};
use crate::metadata::{membership, parsed, Eligibility, MetadataView};
use crate::policy::may_unlock;
use crate::registry::{CallOutcome, RegistryCall};
use crate::state::{Counter, GlobalPool};

verus! {

/// A lock of a core asset that succeeds, in a pool that can count one more, leaves a
/// freeze capability on the asset, with its flag set, and the pool counting exactly one
/// core asset more; nothing else in the pool moves.
pub proof fn lock_corenft_freezes_and_counts(
    ctx: LockCoreNFT,
    pool: GlobalPool,
    entry: CoreAssetEntry,
)
    requires
        pool.count(Counter::CoreNft) < u64::MAX,
    ensures
        ({
            let (result, pool_after, entry_after) = lock_corenft_outcome(ctx, pool, entry);
            result is Ok ==> {
                &&& entry_after.freeze == Some(true)
                &&& entry_after.key == entry.key
                &&& pool_after.total_corenft_staked_count == pool.total_corenft_staked_count + 1
                &&& pool_after.total_pnft_staked_count == pool.total_pnft_staked_count
                &&& pool_after.admin == pool.admin
                &&& pool_after.extra == pool.extra
            }
        }),
{
}

/// An unlock of a core asset that succeeds, in a pool that counts at least one, leaves no
/// freeze capability on the asset, not even one with its flag cleared, and the pool
/// counting exactly one core asset less; nothing else in the pool moves.
pub proof fn unlock_corenft_removes_and_counts(
    ctx: UnlockCoreNFT,
    pool: GlobalPool,
    entry: CoreAssetEntry,
)
    requires
        pool.count(Counter::CoreNft) > 0,
    ensures
        ({
            let (result, pool_after, entry_after) = unlock_corenft_outcome(ctx, pool, entry);
            result is Ok ==> {
                &&& entry_after.freeze is None
                &&& entry_after.key == entry.key
                &&& pool_after.total_corenft_staked_count == pool.total_corenft_staked_count - 1
                &&& pool_after.total_pnft_staked_count == pool.total_pnft_staked_count
                &&& pool_after.admin == pool.admin
                &&& pool_after.extra == pool.extra
            }
        }),
{
}

/// A lock of a programmable asset that succeeds, in a pool that can count one more,
/// leaves the asset locked in the hands of the service, and the pool counting exactly one
/// programmable asset more; nothing else in the pool moves.
pub proof fn lock_pnft_delegates_and_counts(
    ctx: LockPNFT,
    expected: Identity,
    pool: GlobalPool,
    entry: PnftEntry,
)
    requires
        pool.count(Counter::Pnft) < u64::MAX,
    ensures
        ({
            let (result, pool_after, entry_after) = lock_pnft_outcome(ctx, expected, pool, entry);
            result is Ok ==> {
                &&& entry_after.locked
                &&& entry_after.delegate == Some(ctx.global_authority.address)
                &&& entry_after.mint == entry.mint
                &&& pool_after.total_pnft_staked_count == pool.total_pnft_staked_count + 1
                &&& pool_after.total_corenft_staked_count == pool.total_corenft_staked_count
                &&& pool_after.admin == pool.admin
                &&& pool_after.extra == pool.extra
            }
        }),
{
}

/// An unlock of a programmable asset that succeeds, in a pool that counts at least one,
/// leaves the asset unlocked and without a delegate, and the pool counting exactly one
/// programmable asset less; nothing else in the pool moves.
pub proof fn unlock_pnft_releases_and_counts(ctx: UnlockPNFT, pool: GlobalPool, entry: PnftEntry)
    requires
        pool.count(Counter::Pnft) > 0,
    ensures
        ({
            let (result, pool_after, entry_after) = unlock_pnft_outcome(ctx, pool, entry);
            result is Ok ==> {
                &&& !entry_after.locked
                &&& entry_after.delegate is None
                &&& entry_after.mint == entry.mint
                &&& pool_after.total_pnft_staked_count == pool.total_pnft_staked_count - 1
                &&& pool_after.total_corenft_staked_count == pool.total_corenft_staked_count
                &&& pool_after.admin == pool.admin
                &&& pool_after.extra == pool.extra
            }
        }),
{
}

/// A request that fails leaves the pool exactly as it was, whichever of its calls were
/// carried out before it failed.
pub proof fn failure_leaves_the_pool(
    lock_core: LockCoreNFT,
    unlock_core: UnlockCoreNFT,
    lock_pnft: LockPNFT,
    unlock_pnft: UnlockPNFT,
    expected: Identity,
    pool: GlobalPool,
    core: CoreAssetEntry,
    pnft: PnftEntry,
)
    ensures
        lock_corenft_outcome(lock_core, pool, core).0 is Err ==> lock_corenft_outcome(
            lock_core,
            pool,
            core,
        ).1 == pool,
        unlock_corenft_outcome(unlock_core, pool, core).0 is Err ==> unlock_corenft_outcome(
            unlock_core,
            pool,
            core,
        ).1 == pool,
        lock_pnft_outcome(lock_pnft, expected, pool, pnft).0 is Err ==> lock_pnft_outcome(
            lock_pnft,
            expected,
            pool,
            pnft,
        ).1 == pool,
        unlock_pnft_outcome(unlock_pnft, pool, pnft).0 is Err ==> unlock_pnft_outcome(
            unlock_pnft,
            pool,
            pnft,
        ).1 == pool,
{
}

/// Whatever the driver reports, a turn of a handler moves the pool only when it ends the
/// request in `Done`, and it does so on no other report than that the last call of the
/// request was accepted.
pub proof fn pool_moves_only_on_completion(
    lock_core: LockCoreNFT,
    unlock_core: UnlockCoreNFT,
    lock_pnft: LockPNFT,
    unlock_pnft: UnlockPNFT,
    expected: Identity,
    pool: GlobalPool,
    response: Option<CallOutcome>,
    lock_core_step: LockCoreStep,
    unlock_core_step: UnlockCoreStep,
    lock_pnft_step: LockPnftStep,
    unlock_pnft_step: UnlockPnftStep,
)
    ensures
        ({
            let (next, call, pool_after) = lock_corenft_transition(
                lock_core,
                pool,
                lock_core_step,
                response,
            );
            pool_after != pool ==> next == LockCoreStep::Done && call is None && lock_core_step
                == LockCoreStep::AfterAttach && response == Some(CallOutcome::Accepted)
        }),
        ({
            let (next, call, pool_after) = unlock_corenft_transition(
                unlock_core,
                pool,
                unlock_core_step,
                response,
            );
            pool_after != pool ==> next == UnlockCoreStep::Done && call is None
                && unlock_core_step == UnlockCoreStep::AfterRemove && response == Some(
                CallOutcome::Accepted,
            )
        }),
        ({
            let (next, call, pool_after) = lock_pnft_transition(
                lock_pnft,
                expected,
                pool,
                lock_pnft_step,
                response,
            );
            pool_after != pool ==> next == LockPnftStep::Done && call is None && lock_pnft_step
                == LockPnftStep::AfterLock && response == Some(CallOutcome::Accepted)
        }),
        ({
            let (next, call, pool_after) = unlock_pnft_transition(
                unlock_pnft,
                pool,
                unlock_pnft_step,
                response,
            );
            pool_after != pool ==> next == UnlockPnftStep::Done && call is None
                && unlock_pnft_step == UnlockPnftStep::AfterRevoke && response == Some(
                CallOutcome::Accepted,
            )
        }),
{
}

/// Whatever a registry answers, a lock of a core asset ends in `Done` exactly when its
/// accounts fit together and the one call was reported accepted. The call is then the
/// attachment of a frozen capability to the asset of the request, at the payer's cost,
/// and the pool counts one core asset more; in every other case the pool is as it was.
pub proof fn lock_corenft_completes_by_its_call(
    ctx: LockCoreNFT,
    pool: GlobalPool,
    answer: Option<CallOutcome>,
)
    ensures
        ({
            let first = lock_corenft_transition(ctx, pool, LockCoreStep::Init, None);
            let last = lock_corenft_transition(ctx, first.2, first.0, answer);
            let completes = ctx.constraints() is Ok && answer == Some(CallOutcome::Accepted);
            &&& last.0 == LockCoreStep::Done <==> completes
            &&& last.0.finished() is Some
            &&& last.1 is None
            &&& completes ==> {
                &&& first.1 == Some(
                    RegistryCall::AttachFreeze {
                        asset: ctx.asset.key,
                        collection: ctx.collection,
                        payer: ctx.user,
                        frozen: true,
                    },
                )
                &&& first.2 == pool
                &&& last.2 == pool.incremented(Counter::CoreNft)
            }
            &&& !completes ==> last.2 == pool
        }),
{
}

/// Whatever a registry answers, an unlock of a core asset ends in `Done` exactly when the
/// request is admitted and both calls were reported accepted. The calls are then, in
/// this order, the clearing of the flag and the removal of the capability, and the pool
/// counts one core asset less; in every other case the pool is as it was. The request
/// ends in `Partial` exactly when it is admitted and only the first call was accepted.
pub proof fn unlock_corenft_completes_by_both_calls(
    ctx: UnlockCoreNFT,
    pool: GlobalPool,
    first_answer: Option<CallOutcome>,
    second_answer: Option<CallOutcome>,
)
    ensures
        ({
            let first = unlock_corenft_transition(ctx, pool, UnlockCoreStep::Init, None);
            let second = unlock_corenft_transition(ctx, first.2, first.0, first_answer);
            let last = unlock_corenft_transition(ctx, second.2, second.0, second_answer);
            let admitted = ctx.admission(pool.admin) is Ok;
            let accepted = Some(CallOutcome::Accepted);
            let completes = admitted && first_answer == accepted && second_answer == accepted;
            &&& last.0 == UnlockCoreStep::Done <==> completes
            &&& last.0 == UnlockCoreStep::Partial <==> admitted && first_answer == accepted
                && second_answer != accepted
            &&& last.0.finished() is Some
            &&& last.1 is None
            &&& completes ==> {
                &&& first.1 == Some(
                    RegistryCall::UpdateFreeze {
                        asset: ctx.asset.key,
                        collection: ctx.collection,
                        payer: ctx.user,
                        frozen: false,
                    },
                )
                &&& second.1 == Some(
                    RegistryCall::RemoveFreeze {
                        asset: ctx.asset.key,
                        collection: ctx.collection,
                        payer: ctx.user,
                    },
                )
                &&& second.2 == pool
                &&& last.2 == pool.decremented(Counter::CoreNft)
            }
            &&& !completes ==> last.2 == pool
        }),
{
}

/// Whatever a registry answers, a lock of a programmable asset ends in `Done` exactly
/// when the request is admitted and both calls were reported accepted. The calls are
/// then, in this order, the grant of one unit to the service by the owner and the lock by
/// the service, and the pool counts one programmable asset more; in every other case the
/// pool is as it was. The request ends in `Partial` exactly when it is admitted and only
/// the first call was accepted.
pub proof fn lock_pnft_completes_by_both_calls(
    ctx: LockPNFT,
    expected: Identity,
    pool: GlobalPool,
    first_answer: Option<CallOutcome>,
    second_answer: Option<CallOutcome>,
)
    ensures
        ({
            let first = lock_pnft_transition(ctx, expected, pool, LockPnftStep::Init, None);
            let second = lock_pnft_transition(ctx, expected, first.2, first.0, first_answer);
            let last = lock_pnft_transition(ctx, expected, second.2, second.0, second_answer);
            let admitted = ctx.admission(expected) is Ok;
            let accepted = Some(CallOutcome::Accepted);
            let completes = admitted && first_answer == accepted && second_answer == accepted;
            &&& last.0 == LockPnftStep::Done <==> completes
            &&& last.0 == LockPnftStep::Partial <==> admitted && first_answer == accepted
                && second_answer != accepted
            &&& last.0.finished() is Some
            &&& last.1 is None
            &&& completes ==> {
                &&& first.1 == Some(
                    RegistryCall::GrantDelegate {
                        token: ctx.bundle(),
                        delegate: ctx.global_authority.address,
                        amount: 1,
                        authority: ctx.user,
                        payer: ctx.user,
                    },
                )
                &&& second.1 == Some(
                    RegistryCall::Lock {
                        token: ctx.bundle(),
                        token_owner: ctx.user,
                        authority: ctx.global_authority,
                        payer: ctx.user,
                    },
                )
                &&& second.2 == pool
                &&& last.2 == pool.incremented(Counter::Pnft)
            }
            &&& !completes ==> last.2 == pool
        }),
{
}

/// Whatever a registry answers, an unlock of a programmable asset ends in `Done` exactly
/// when the request is admitted and both calls were reported accepted. The calls are
/// then, in this order, the unlock by the service and the revocation of the service's
/// delegation on the payer's signature, and the pool counts one programmable asset less;
/// in every other case the pool is as it was. The request ends in `Partial` exactly when
/// it is admitted and only the first call was accepted.
pub proof fn unlock_pnft_completes_by_both_calls(
    ctx: UnlockPNFT,
    pool: GlobalPool,
    first_answer: Option<CallOutcome>,
    second_answer: Option<CallOutcome>,
)
    ensures
        ({
            let first = unlock_pnft_transition(ctx, pool, UnlockPnftStep::Init, None);
            let second = unlock_pnft_transition(ctx, first.2, first.0, first_answer);
            let last = unlock_pnft_transition(ctx, second.2, second.0, second_answer);
            let admitted = ctx.admission(pool.admin) is Ok;
            let accepted = Some(CallOutcome::Accepted);
            let completes = admitted && first_answer == accepted && second_answer == accepted;
            &&& last.0 == UnlockPnftStep::Done <==> completes
            &&& last.0 == UnlockPnftStep::Partial <==> admitted && first_answer == accepted
                && second_answer != accepted
            &&& last.0.finished() is Some
            &&& last.1 is None
            &&& completes ==> {
                &&& first.1 == Some(
                    RegistryCall::Unlock {
                        token: ctx.bundle(),
                        token_owner: ctx.user,
                        authority: ctx.global_authority,
                        payer: ctx.payer,
                    },
                )
                &&& second.1 == Some(
                    RegistryCall::RevokeDelegate {
                        token: ctx.bundle(),
                        delegate: ctx.global_authority.address,
                        authority: ctx.payer,
                        payer: ctx.payer,
                    },
                )
                &&& second.2 == pool
                &&& last.2 == pool.decremented(Counter::Pnft)
            }
            &&& !completes ==> last.2 == pool
        }),
{
}

/// Metadata that has both its collection and its creator list proves membership exactly
/// when the collection is the expected one or a creator is; else it is found ineligible,
/// and never unreadable.
pub proof fn membership_by_collection_or_creator(
    collection: Identity,
    creators: Seq<Identity>,
    expected: Identity,
)
    ensures
        ({
            let metadata = MetadataView { collection: Some(collection), creators: Some(creators) };
            let matches = collection == expected || exists|i: int|
                0 <= i < creators.len() && creators[i] == expected;
            &&& matches ==> membership(metadata, expected) is Ok
            &&& !matches ==> membership(metadata, expected) == Err::<Eligibility, StakingError>(
                StakingError::IneligibleCollection,
            )
        }),
{
}

/// Metadata that lacks its collection or its creator list is unreadable, whatever the
/// field that is there holds; it is never found ineligible.
pub proof fn membership_needs_both_fields(metadata: MetadataView, expected: Identity)
    requires
        metadata.collection is None || metadata.creators is None,
    ensures
        membership(metadata, expected) == Err::<Eligibility, StakingError>(
            StakingError::MetadataParseError,
        ),
{
}

/// A lock of a programmable asset whose metadata names neither the expected collection
/// nor the expected creator fails with `IneligibleCollection`: nothing is called, and
/// neither the pool nor the asset changes.
pub proof fn lock_pnft_turns_a_foreign_asset_away(
    ctx: LockPNFT,
    expected: Identity,
    pool: GlobalPool,
    entry: PnftEntry,
    collection: Identity,
    creators: Seq<Identity>,
)
    requires
        ctx.constraints() is Ok,
        collection != expected,
        !creators.contains(expected),
    ensures
        parsed(ctx.mint_metadata.data@) == Ok::<MetadataView, StakingError>(
            MetadataView { collection: Some(collection), creators: Some(creators) },
        ) ==> {
            &&& lock_pnft_transition(ctx, expected, pool, LockPnftStep::Init, None) == (
                LockPnftStep::Error(StakingError::IneligibleCollection),
                None::<RegistryCall>,
                pool,
            )
            &&& lock_pnft_outcome(ctx, expected, pool, entry) == (
                Err::<(), StakingError>(StakingError::IneligibleCollection),
                pool,
                entry,
            )
        },
{
}

/// A lock of a programmable asset whose metadata names the expected collection, or lists
/// the expected creator, goes ahead: the delegation is asked for, and the lock succeeds
/// wherever the registry accepts the delegation and the lock, as it does for an asset
/// that is neither delegated nor locked.
pub proof fn lock_pnft_takes_a_member(
    ctx: LockPNFT,
    expected: Identity,
    pool: GlobalPool,
    entry: PnftEntry,
    collection: Identity,
    creators: Seq<Identity>,
)
    requires
        ctx.constraints() is Ok,
        collection == expected || creators.contains(expected),
    ensures
        parsed(ctx.mint_metadata.data@) == Ok::<MetadataView, StakingError>(
            MetadataView { collection: Some(collection), creators: Some(creators) },
        ) ==> {
            &&& lock_pnft_transition(ctx, expected, pool, LockPnftStep::Init, None) == (
                LockPnftStep::AfterGrant,
                Some(ctx.grant_call()),
                pool,
            )
            &&& lock_pnft_outcome(ctx, expected, pool, entry).0 is Ok <==> entry.accepts(
                ctx.grant_call(),
            ) && entry.after(ctx.grant_call()).accepts(ctx.lock_call())
            &&& entry.mint == ctx.token_mint && entry.delegate is None && !entry.locked
                ==> lock_pnft_outcome(ctx, expected, pool, entry).0 is Ok
        },
{
}

/// A lock of a programmable asset whose metadata cannot be read, or lacks its collection
/// or its creator list, fails with `MetadataParseError` and not with
/// `IneligibleCollection`, whatever is expected of the asset: nothing is called, and
/// neither the pool nor the asset changes.
pub proof fn lock_pnft_needs_readable_metadata(
    ctx: LockPNFT,
    expected: Identity,
    pool: GlobalPool,
    entry: PnftEntry,
)
    requires
        ctx.constraints() is Ok,
    ensures
        (match parsed(ctx.mint_metadata.data@) {
            Ok(metadata) => metadata.collection is None || metadata.creators is None,
            Err(_) => true,
        }) ==> {
            &&& lock_pnft_transition(ctx, expected, pool, LockPnftStep::Init, None) == (
                LockPnftStep::Error(StakingError::MetadataParseError),
                None::<RegistryCall>,
                pool,
            )
            &&& lock_pnft_outcome(ctx, expected, pool, entry) == (
                Err::<(), StakingError>(StakingError::MetadataParseError),
                pool,
                entry,
            )
        },
{
}

/// An unlock of a core asset whose accounts fit together is open to the owner and to the
/// administrator of the pool, and to nobody else. A third party is turned away with
/// `InvalidAdmin` before anything is called. For the owner and for the administrator the
/// unlock succeeds on every asset that carries a freeze capability.
pub proof fn unlock_corenft_is_for_owner_and_admin(
    ctx: UnlockCoreNFT,
    pool: GlobalPool,
    entry: CoreAssetEntry,
)
    requires
        ctx.constraints() is Ok,
    ensures
        ({
            let outcome = unlock_corenft_outcome(ctx, pool, entry);
            let first = unlock_corenft_transition(ctx, pool, UnlockCoreStep::Init, None);
            &&& ctx.user != ctx.owner && ctx.user != pool.admin ==> {
                &&& outcome == (Err::<(), StakingError>(StakingError::InvalidAdmin), pool, entry)
                &&& first == (
                    UnlockCoreStep::Error(StakingError::InvalidAdmin),
                    None::<RegistryCall>,
                    pool,
                )
            }
            &&& ctx.user == ctx.owner || ctx.user == pool.admin ==> {
                &&& first == (UnlockCoreStep::AfterUpdate, Some(ctx.update_call()), pool)
                &&& outcome.0 is Ok <==> entry.key == ctx.asset.key && entry.freeze is Some
            }
        }),
{
}

/// An unlock of a programmable asset whose accounts fit together is open to the owner and
/// to the administrator of the pool, and to nobody else. A third party is turned away
/// with `InvalidAdmin` before anything is called. For the owner and for the administrator
/// the unlock succeeds on every asset that the service holds locked.
pub proof fn unlock_pnft_is_for_owner_and_admin(ctx: UnlockPNFT, pool: GlobalPool, entry: PnftEntry)
    requires
        ctx.constraints() is Ok,
    ensures
        ({
            let outcome = unlock_pnft_outcome(ctx, pool, entry);
            let first = unlock_pnft_transition(ctx, pool, UnlockPnftStep::Init, None);
            &&& ctx.payer != ctx.user && ctx.payer != pool.admin ==> {
                &&& outcome == (Err::<(), StakingError>(StakingError::InvalidAdmin), pool, entry)
                &&& first == (
                    UnlockPnftStep::Error(StakingError::InvalidAdmin),
                    None::<RegistryCall>,
                    pool,
                )
            }
            &&& ctx.payer == ctx.user || ctx.payer == pool.admin ==> {
                &&& first == (UnlockPnftStep::AfterUnlock, Some(ctx.unlock_call()), pool)
                &&& outcome.0 is Ok <==> entry.mint == ctx.token_mint && entry.locked
                    && entry.delegate == Some(ctx.global_authority.address)
            }
        }),
{
}

/// The policy in one line: whoever may unlock is the owner or the administrator.
pub proof fn only_owner_and_admin_may_unlock(owner: Identity, actor: Identity, admin: Identity)
    ensures
        may_unlock(owner, owner, admin),
        may_unlock(owner, admin, admin),
        actor != owner && actor != admin ==> !may_unlock(owner, actor, admin),
{
}

/// A lock and an unlock of the same core asset, both successful, leave the asset and the
/// pool as they were before the lock.
pub proof fn lock_then_unlock_corenft_restores(
    lock: LockCoreNFT,
    unlock: UnlockCoreNFT,
    pool: GlobalPool,
    entry: CoreAssetEntry,
)
    requires
        pool.count(Counter::CoreNft) < u64::MAX,
    ensures
        ({
            let (locked, pool_locked, entry_locked) = lock_corenft_outcome(lock, pool, entry);
            let (unlocked, pool_after, entry_after) = unlock_corenft_outcome(
                unlock,
                pool_locked,
                entry_locked,
            );
            locked is Ok && unlocked is Ok ==> entry_after == entry && pool_after == pool
        }),
{
}

/// A lock and an unlock of the same programmable asset, both successful, leave the asset
/// and the pool as they were before the lock.
pub proof fn lock_then_unlock_pnft_restores(
    lock: LockPNFT,
    unlock: UnlockPNFT,
    expected: Identity,
    pool: GlobalPool,
    entry: PnftEntry,
)
    requires
        pool.count(Counter::Pnft) < u64::MAX,
    ensures
        ({
            let (locked, pool_locked, entry_locked) = lock_pnft_outcome(
                lock,
                expected,
                pool,
                entry,
            );
            let (unlocked, pool_after, entry_after) = unlock_pnft_outcome(
                unlock,
                pool_locked,
                entry_locked,
            );
            locked is Ok && unlocked is Ok ==> entry_after == entry && pool_after == pool
        }),
{
}

/// No asset is locked twice or unlocked twice: a lock of a core asset that carries a
/// freeze capability, and an unlock of one that carries none, fail at their first call
/// and change nothing, so that the pool never counts an asset twice and never counts down
/// for an asset it did not count.
pub proof fn corenft_is_not_locked_or_unlocked_twice(
    lock: LockCoreNFT,
    unlock: UnlockCoreNFT,
    pool: GlobalPool,
    entry: CoreAssetEntry,
)
    ensures
        entry.freeze is Some ==> {
            &&& lock_corenft_outcome(lock, pool, entry).0 is Err
            &&& lock_corenft_outcome(lock, pool, entry).1 == pool
            &&& lock_corenft_outcome(lock, pool, entry).2 == entry
        },
        entry.freeze is None ==> {
            &&& unlock_corenft_outcome(unlock, pool, entry).0 is Err
            &&& unlock_corenft_outcome(unlock, pool, entry).1 == pool
            &&& unlock_corenft_outcome(unlock, pool, entry).2 == entry
        },
{
}

/// No asset is locked twice or unlocked twice: a lock of a programmable asset that has a
/// delegate or is locked, and an unlock of one that is not locked, fail at their first
/// call and change nothing.
pub proof fn pnft_is_not_locked_or_unlocked_twice(
    lock: LockPNFT,
    unlock: UnlockPNFT,
    expected: Identity,
    pool: GlobalPool,
    entry: PnftEntry,
)
    ensures
        entry.delegate is Some || entry.locked ==> {
            &&& lock_pnft_outcome(lock, expected, pool, entry).0 is Err
            &&& lock_pnft_outcome(lock, expected, pool, entry).1 == pool
            &&& lock_pnft_outcome(lock, expected, pool, entry).2 == entry
        },
        !entry.locked ==> {
            &&& unlock_pnft_outcome(unlock, pool, entry).0 is Err
            &&& unlock_pnft_outcome(unlock, pool, entry).1 == pool
            &&& unlock_pnft_outcome(unlock, pool, entry).2 == entry
        },
{
}

/// What was locked can be unlocked: after a successful lock of a core asset, an unlock of
/// that asset by its owner or by the administrator succeeds.
pub proof fn locked_corenft_can_be_unlocked(
    lock: LockCoreNFT,
    unlock: UnlockCoreNFT,
    pool: GlobalPool,
    entry: CoreAssetEntry,
)
    requires
        pool.count(Counter::CoreNft) < u64::MAX,
        unlock.asset == lock.asset,
        unlock.collection == lock.collection,
        unlock.owner == lock.owner,
        unlock.user == unlock.owner || unlock.user == pool.admin,
    ensures
        ({
            let (locked, pool_locked, entry_locked) = lock_corenft_outcome(lock, pool, entry);
            locked is Ok ==> unlock_corenft_outcome(unlock, pool_locked, entry_locked).0 is Ok
        }),
{
}

/// What was locked can be unlocked: after a successful lock of a programmable asset, an
/// unlock of that asset by its owner or by the administrator succeeds.
pub proof fn locked_pnft_can_be_unlocked(
    lock: LockPNFT,
    unlock: UnlockPNFT,
    expected: Identity,
    pool: GlobalPool,
    entry: PnftEntry,
)
    requires
        pool.count(Counter::Pnft) < u64::MAX,
        unlock.token_mint == lock.token_mint,
        unlock.token_account == lock.token_account,
        unlock.global_authority == lock.global_authority,
        unlock.user == lock.user,
        unlock.payer == unlock.user || unlock.payer == pool.admin,
    ensures
        ({
            let (locked, pool_locked, entry_locked) = lock_pnft_outcome(
                lock,
                expected,
                pool,
                entry,
            );
            locked is Ok ==> unlock_pnft_outcome(unlock, pool_locked, entry_locked).0 is Ok
        }),
{
}

} // verus!
