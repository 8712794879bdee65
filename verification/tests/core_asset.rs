use mpl_corenft_staking::error::StakingError;
use mpl_corenft_staking::identity::Identity;
use mpl_corenft_staking::instructions::lock_corenft::{
    lock_corenft_handler, lock_corenft_on, LockCoreNFT, LockCoreStep,
};
use mpl_corenft_staking::instructions::unlock_corenft::{
    unlock_corenft_handler, unlock_corenft_on, UnlockCoreNFT, UnlockCoreStep,
};
use mpl_corenft_staking::ledger::CoreAssetEntry;
use mpl_corenft_staking::registry::{CallOutcome, CoreAsset, RegistryCall, UpdateAuthority};
use mpl_corenft_staking::state::GlobalPool;
use mpl_corenft_staking::{lock_corenft, unlock_corenft};

fn id(n: u8) -> Identity {
    Identity::new([n; 32])
}

const ADMIN: u8 = 1;
const OWNER: u8 = 2;
const PAYER: u8 = 3;
const STRANGER: u8 = 4;
const ASSET: u8 = 10;
const COLLECTION: u8 = 20;

fn asset() -> CoreAsset {
    CoreAsset { key: id(ASSET), owner: id(OWNER), update_authority: UpdateAuthority::Collection(id(COLLECTION)) }
}

fn lock_ctx() -> LockCoreNFT {
    LockCoreNFT { owner: id(OWNER), user: id(PAYER), asset: asset(), collection: id(COLLECTION) }
}

fn unlock_ctx(actor: u8) -> UnlockCoreNFT {
    UnlockCoreNFT { owner: id(OWNER), user: id(actor), asset: asset(), collection: id(COLLECTION) }
}

fn pool(core: u64, pnft: u64) -> GlobalPool {
    GlobalPool { admin: id(ADMIN), total_pnft_staked_count: pnft, total_corenft_staked_count: core, extra: 0 }
}

#[test]
fn lock_core_asks_for_a_frozen_capability_then_counts() {
    let mut p = pool(0, 0);
    let (step, call) = lock_corenft_handler(&lock_ctx(), &mut p, LockCoreStep::Init, None);
    assert_eq!(step, LockCoreStep::AfterAttach);
    assert_eq!(
        call,
        Some(RegistryCall::AttachFreeze { asset: id(ASSET), collection: id(COLLECTION), payer: id(PAYER), frozen: true })
    );
    assert_eq!(p, pool(0, 0));
    let (step, call) = lock_corenft_handler(&lock_ctx(), &mut p, step, Some(CallOutcome::Accepted));
    assert_eq!(step, LockCoreStep::Done);
    assert_eq!(call, None);
    assert_eq!(p, pool(1, 0));
    assert_eq!(step.result(), Some(Ok(())));
}

#[test]
fn lock_core_rejected_call_leaves_the_pool() {
    let mut p = pool(5, 7);
    let (step, _) = lock_corenft_handler(&lock_ctx(), &mut p, LockCoreStep::Init, None);
    let (step, call) = lock_corenft_handler(&lock_ctx(), &mut p, step, Some(CallOutcome::Rejected));
    assert_eq!(step, LockCoreStep::Error(StakingError::ExternalCallFailed));
    assert_eq!(call, None);
    assert_eq!(p, pool(5, 7));
    assert_eq!(step.result(), Some(Err(StakingError::ExternalCallFailed)));
}

#[test]
fn lock_core_without_an_answer_fails() {
    let mut p = pool(5, 7);
    let (step, call) = lock_corenft_handler(&lock_ctx(), &mut p, LockCoreStep::AfterAttach, None);
    assert_eq!(step, LockCoreStep::Error(StakingError::ExternalCallFailed));
    assert_eq!(call, None);
    assert_eq!(p, pool(5, 7));
}

#[test]
fn lock_core_finished_request_stays_finished() {
    let mut p = pool(1, 0);
    let (step, call) = lock_corenft_handler(&lock_ctx(), &mut p, LockCoreStep::Done, Some(CallOutcome::Accepted));
    assert_eq!((step, call), (LockCoreStep::Done, None));
    let failed = LockCoreStep::Error(StakingError::InvalidAdmin);
    let (step, call) = lock_corenft_handler(&lock_ctx(), &mut p, failed, Some(CallOutcome::Accepted));
    assert_eq!((step, call), (failed, None));
    assert_eq!(p, pool(1, 0));
}

#[test]
fn lock_core_unfinished_step_has_no_result() {
    assert_eq!(LockCoreStep::Init.result(), None);
    assert_eq!(LockCoreStep::AfterAttach.result(), None);
    assert_eq!(UnlockCoreStep::Init.result(), None);
    assert_eq!(UnlockCoreStep::AfterUpdate.result(), None);
    assert_eq!(UnlockCoreStep::AfterRemove.result(), None);
}

#[test]
fn lock_core_by_another_than_the_owner_is_invalid_admin() {
    let mut ctx = lock_ctx();
    ctx.owner = id(STRANGER);
    assert_eq!(ctx.validate(), Err(StakingError::InvalidAdmin));
    let mut p = pool(0, 0);
    let (step, call) = lock_corenft_handler(&ctx, &mut p, LockCoreStep::Init, None);
    assert_eq!(step, LockCoreStep::Error(StakingError::InvalidAdmin));
    assert_eq!(call, None);
    assert_eq!(p, pool(0, 0));
}

#[test]
fn lock_core_of_another_collection_is_refused() {
    let mut ctx = lock_ctx();
    ctx.collection = id(21);
    assert_eq!(ctx.validate(), Err(StakingError::ExternalCallFailed));
    ctx.collection = id(COLLECTION);
    ctx.asset.update_authority = UpdateAuthority::Address(id(COLLECTION));
    assert_eq!(ctx.validate(), Err(StakingError::ExternalCallFailed));
    ctx.asset.update_authority = UpdateAuthority::Nobody;
    assert_eq!(ctx.validate(), Err(StakingError::ExternalCallFailed));
    let mut p = pool(0, 0);
    let (step, call) = lock_corenft_handler(&ctx, &mut p, LockCoreStep::Init, None);
    assert_eq!(step, LockCoreStep::Error(StakingError::ExternalCallFailed));
    assert_eq!(call, None);
}

#[test]
fn lock_core_owner_check_comes_first() {
    let mut ctx = lock_ctx();
    ctx.owner = id(STRANGER);
    ctx.collection = id(21);
    assert_eq!(ctx.validate(), Err(StakingError::InvalidAdmin));
}

#[test]
fn lock_core_valid_accounts_pass() {
    assert_eq!(lock_ctx().validate(), Ok(()));
    assert_eq!(unlock_ctx(OWNER).validate(), Ok(()));
}

#[test]
fn unlock_core_clears_the_flag_then_removes_then_counts() {
    let ctx = unlock_ctx(OWNER);
    let mut p = pool(1, 0);
    let (step, call) = unlock_corenft_handler(&ctx, &mut p, UnlockCoreStep::Init, None);
    assert_eq!(step, UnlockCoreStep::AfterUpdate);
    assert_eq!(
        call,
        Some(RegistryCall::UpdateFreeze { asset: id(ASSET), collection: id(COLLECTION), payer: id(OWNER), frozen: false })
    );
    let (step, call) = unlock_corenft_handler(&ctx, &mut p, step, Some(CallOutcome::Accepted));
    assert_eq!(step, UnlockCoreStep::AfterRemove);
    assert_eq!(
        call,
        Some(RegistryCall::RemoveFreeze { asset: id(ASSET), collection: id(COLLECTION), payer: id(OWNER) })
    );
    assert_eq!(p, pool(1, 0));
    let (step, call) = unlock_corenft_handler(&ctx, &mut p, step, Some(CallOutcome::Accepted));
    assert_eq!(step, UnlockCoreStep::Done);
    assert_eq!(call, None);
    assert_eq!(p, pool(0, 0));
    assert_eq!(step.result(), Some(Ok(())));
}

#[test]
fn unlock_core_failure_at_either_call_leaves_the_pool() {
    let ctx = unlock_ctx(OWNER);
    let mut p = pool(3, 0);
    let (step, _) = unlock_corenft_handler(&ctx, &mut p, UnlockCoreStep::Init, None);
    let (failed, call) = unlock_corenft_handler(&ctx, &mut p, step, Some(CallOutcome::Rejected));
    assert_eq!(failed, UnlockCoreStep::Error(StakingError::ExternalCallFailed));
    assert_eq!(call, None);
    assert_eq!(p, pool(3, 0));

    let (step, _) = unlock_corenft_handler(&ctx, &mut p, step, Some(CallOutcome::Accepted));
    assert_eq!(step, UnlockCoreStep::AfterRemove);
    let (failed, call) = unlock_corenft_handler(&ctx, &mut p, step, Some(CallOutcome::Rejected));
    assert_eq!(failed, UnlockCoreStep::Partial);
    assert_eq!(call, None);
    assert_eq!(p, pool(3, 0));
    assert_eq!(failed.result(), Some(Err(StakingError::ExternalCallFailed)));
    let (again, call) = unlock_corenft_handler(&ctx, &mut p, failed, Some(CallOutcome::Accepted));
    assert_eq!((again, call), (UnlockCoreStep::Partial, None));
    assert_eq!(p, pool(3, 0));
}

#[test]
fn unlock_core_by_admin_pays_as_admin() {
    let ctx = unlock_ctx(ADMIN);
    let mut p = pool(1, 0);
    let (step, call) = unlock_corenft_handler(&ctx, &mut p, UnlockCoreStep::Init, None);
    assert_eq!(step, UnlockCoreStep::AfterUpdate);
    assert_eq!(
        call,
        Some(RegistryCall::UpdateFreeze { asset: id(ASSET), collection: id(COLLECTION), payer: id(ADMIN), frozen: false })
    );
}

#[test]
fn unlock_core_by_a_third_party_is_invalid_admin() {
    let ctx = unlock_ctx(STRANGER);
    assert_eq!(ctx.check_admission(&id(ADMIN)), Err(StakingError::InvalidAdmin));
    let mut p = pool(1, 0);
    let (step, call) = unlock_corenft_handler(&ctx, &mut p, UnlockCoreStep::Init, None);
    assert_eq!(step, UnlockCoreStep::Error(StakingError::InvalidAdmin));
    assert_eq!(call, None);
    assert_eq!(p, pool(1, 0));
}

#[test]
fn unlock_core_admission_checks_accounts_first() {
    let mut ctx = unlock_ctx(OWNER);
    ctx.asset.update_authority = UpdateAuthority::Nobody;
    assert_eq!(ctx.check_admission(&id(ADMIN)), Err(StakingError::ExternalCallFailed));
    ctx.asset.owner = id(STRANGER);
    assert_eq!(ctx.check_admission(&id(ADMIN)), Err(StakingError::InvalidAdmin));
    assert_eq!(unlock_ctx(OWNER).check_admission(&id(ADMIN)), Ok(()));
    assert_eq!(unlock_ctx(ADMIN).check_admission(&id(ADMIN)), Ok(()));
}

#[test]
fn entry_points_take_the_same_turns_as_the_handlers() {
    let mut p = pool(0, 0);
    let (step, call) = lock_corenft(&lock_ctx(), &mut p, LockCoreStep::Init, None);
    assert_eq!(step, LockCoreStep::AfterAttach);
    assert!(call.is_some());
    let (step, _) = lock_corenft(&lock_ctx(), &mut p, step, Some(CallOutcome::Accepted));
    assert_eq!(step, LockCoreStep::Done);
    assert_eq!(p, pool(1, 0));

    let ctx = unlock_ctx(OWNER);
    let (step, _) = unlock_corenft(&ctx, &mut p, UnlockCoreStep::Init, None);
    let (step, _) = unlock_corenft(&ctx, &mut p, step, Some(CallOutcome::Accepted));
    let (step, call) = unlock_corenft(&ctx, &mut p, step, Some(CallOutcome::Accepted));
    assert_eq!((step, call), (UnlockCoreStep::Done, None));
    assert_eq!(p, pool(0, 0));
}

#[test]
fn lock_core_on_a_free_asset_freezes_and_counts() {
    let mut p = pool(4, 9);
    let mut entry = CoreAssetEntry { key: id(ASSET), freeze: None };
    assert_eq!(lock_corenft_on(&lock_ctx(), &mut p, &mut entry), Ok(()));
    assert_eq!(entry, CoreAssetEntry { key: id(ASSET), freeze: Some(true) });
    assert_eq!(p, pool(5, 9));
}

#[test]
fn lock_core_on_a_locked_asset_fails() {
    let mut p = pool(1, 0);
    let mut entry = CoreAssetEntry { key: id(ASSET), freeze: Some(true) };
    assert_eq!(lock_corenft_on(&lock_ctx(), &mut p, &mut entry), Err(StakingError::ExternalCallFailed));
    assert_eq!(entry, CoreAssetEntry { key: id(ASSET), freeze: Some(true) });
    assert_eq!(p, pool(1, 0));
}

#[test]
fn unlock_core_on_a_free_asset_fails() {
    let mut p = pool(1, 0);
    let mut entry = CoreAssetEntry { key: id(ASSET), freeze: None };
    assert_eq!(
        unlock_corenft_on(&unlock_ctx(OWNER), &mut p, &mut entry),
        Err(StakingError::ExternalCallFailed)
    );
    assert_eq!(entry, CoreAssetEntry { key: id(ASSET), freeze: None });
    assert_eq!(p, pool(1, 0));
}

#[test]
fn core_round_trip_restores_asset_and_pool() {
    let mut p = pool(4, 9);
    let mut entry = CoreAssetEntry { key: id(ASSET), freeze: None };
    assert_eq!(lock_corenft_on(&lock_ctx(), &mut p, &mut entry), Ok(()));
    assert_eq!(unlock_corenft_on(&unlock_ctx(OWNER), &mut p, &mut entry), Ok(()));
    assert_eq!(entry, CoreAssetEntry { key: id(ASSET), freeze: None });
    assert_eq!(p, pool(4, 9));
}

#[test]
fn owner_locks_stranger_fails_admin_unlocks() {
    let mut p = GlobalPool::new(id(ADMIN));
    let mut x = CoreAssetEntry { key: id(ASSET), freeze: None };
    assert_eq!((p.total_corenft_staked_count, p.total_pnft_staked_count), (0, 0));

    assert_eq!(lock_corenft_on(&lock_ctx(), &mut p, &mut x), Ok(()));
    assert_eq!(p.total_corenft_staked_count, 1);
    assert_eq!(x.freeze, Some(true));

    assert_eq!(unlock_corenft_on(&unlock_ctx(STRANGER), &mut p, &mut x), Err(StakingError::InvalidAdmin));
    assert_eq!(p.total_corenft_staked_count, 1);
    assert_eq!(x.freeze, Some(true));

    assert_eq!(unlock_corenft_on(&unlock_ctx(ADMIN), &mut p, &mut x), Ok(()));
    assert_eq!(p.total_corenft_staked_count, 0);
    assert_eq!(x.freeze, None);
    assert_eq!(p, GlobalPool::new(id(ADMIN)));
}

#[test]
fn unlock_core_in_an_empty_pool_is_refused_before_it_counts() {
    let mut p = pool(0, 0);
    let mut entry = CoreAssetEntry { key: id(ASSET), freeze: None };
    assert_eq!(
        unlock_corenft_on(&unlock_ctx(STRANGER), &mut p, &mut entry),
        Err(StakingError::InvalidAdmin)
    );
    assert_eq!(
        unlock_corenft_on(&unlock_ctx(OWNER), &mut p, &mut entry),
        Err(StakingError::ExternalCallFailed)
    );
    assert_eq!(p, pool(0, 0));
    assert_eq!(entry, CoreAssetEntry { key: id(ASSET), freeze: None });
}
