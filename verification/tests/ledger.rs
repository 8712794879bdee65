use mpl_corenft_staking::identity::Identity;
use mpl_corenft_staking::ledger::{CoreAssetEntry, PnftEntry};
use mpl_corenft_staking::registry::{CallOutcome, RegistryCall, ServiceAuthority, TokenBundle};

fn id(n: u8) -> Identity {
    Identity::new([n; 32])
}

fn bundle(mint: u8) -> TokenBundle {
    TokenBundle {
        mint: id(mint),
        token_account: id(41),
        metadata: id(42),
        edition: id(43),
        token_record: id(44),
        rule_set: id(45),
    }
}

fn service() -> ServiceAuthority {
    ServiceAuthority { address: id(50), bump: 254 }
}

#[test]
fn attach_is_accepted_once() {
    let mut asset = CoreAssetEntry { key: id(1), freeze: None };
    let call = RegistryCall::AttachFreeze { asset: id(1), collection: id(2), payer: id(3), frozen: true };
    assert_eq!(asset.apply(&call), CallOutcome::Accepted);
    assert_eq!(asset, CoreAssetEntry { key: id(1), freeze: Some(true) });
    assert_eq!(asset.apply(&call), CallOutcome::Rejected);
    assert_eq!(asset, CoreAssetEntry { key: id(1), freeze: Some(true) });
}

#[test]
fn update_and_remove_need_a_capability() {
    let mut asset = CoreAssetEntry { key: id(1), freeze: None };
    let update = RegistryCall::UpdateFreeze { asset: id(1), collection: id(2), payer: id(3), frozen: false };
    let remove = RegistryCall::RemoveFreeze { asset: id(1), collection: id(2), payer: id(3) };
    assert_eq!(asset.apply(&update), CallOutcome::Rejected);
    assert_eq!(asset.apply(&remove), CallOutcome::Rejected);
    assert_eq!(asset.freeze, None);
    asset.freeze = Some(true);
    assert_eq!(asset.apply(&update), CallOutcome::Accepted);
    assert_eq!(asset.freeze, Some(false));
    assert_eq!(asset.apply(&remove), CallOutcome::Accepted);
    assert_eq!(asset.freeze, None);
}

#[test]
fn core_call_on_another_asset_is_rejected() {
    let mut asset = CoreAssetEntry { key: id(1), freeze: None };
    let call = RegistryCall::AttachFreeze { asset: id(9), collection: id(2), payer: id(3), frozen: true };
    assert_eq!(asset.apply(&call), CallOutcome::Rejected);
    assert_eq!(asset.freeze, None);
}

#[test]
fn core_asset_rejects_token_calls() {
    let mut asset = CoreAssetEntry { key: id(1), freeze: Some(true) };
    let call = RegistryCall::Lock { token: bundle(1), token_owner: id(3), authority: service(), payer: id(3) };
    assert_eq!(asset.apply(&call), CallOutcome::Rejected);
    assert_eq!(asset.freeze, Some(true));
}

#[test]
fn delegate_then_lock_then_unlock_then_revoke() {
    let mut asset = PnftEntry { mint: id(40), delegate: None, locked: false };
    let grant = RegistryCall::GrantDelegate {
        token: bundle(40),
        delegate: id(50),
        amount: 1,
        authority: id(3),
        payer: id(3),
    };
    let lock = RegistryCall::Lock { token: bundle(40), token_owner: id(3), authority: service(), payer: id(3) };
    let unlock = RegistryCall::Unlock { token: bundle(40), token_owner: id(3), authority: service(), payer: id(3) };
    let revoke = RegistryCall::RevokeDelegate { token: bundle(40), delegate: id(50), authority: id(3), payer: id(3) };

    assert_eq!(asset.apply(&lock), CallOutcome::Rejected);
    assert_eq!(asset.apply(&unlock), CallOutcome::Rejected);
    assert_eq!(asset.apply(&revoke), CallOutcome::Rejected);
    assert_eq!(asset, PnftEntry { mint: id(40), delegate: None, locked: false });

    assert_eq!(asset.apply(&grant), CallOutcome::Accepted);
    assert_eq!(asset, PnftEntry { mint: id(40), delegate: Some(id(50)), locked: false });
    assert_eq!(asset.apply(&grant), CallOutcome::Rejected);

    assert_eq!(asset.apply(&lock), CallOutcome::Accepted);
    assert_eq!(asset, PnftEntry { mint: id(40), delegate: Some(id(50)), locked: true });
    assert_eq!(asset.apply(&lock), CallOutcome::Rejected);
    assert_eq!(asset.apply(&revoke), CallOutcome::Rejected);

    assert_eq!(asset.apply(&unlock), CallOutcome::Accepted);
    assert_eq!(asset, PnftEntry { mint: id(40), delegate: Some(id(50)), locked: false });

    assert_eq!(asset.apply(&revoke), CallOutcome::Accepted);
    assert_eq!(asset, PnftEntry { mint: id(40), delegate: None, locked: false });
}

#[test]
fn only_the_delegate_locks() {
    let mut asset = PnftEntry { mint: id(40), delegate: Some(id(51)), locked: false };
    let lock = RegistryCall::Lock { token: bundle(40), token_owner: id(3), authority: service(), payer: id(3) };
    assert_eq!(asset.apply(&lock), CallOutcome::Rejected);
    assert!(!asset.locked);
}

#[test]
fn token_call_on_another_mint_is_rejected() {
    let mut asset = PnftEntry { mint: id(40), delegate: None, locked: false };
    let grant = RegistryCall::GrantDelegate {
        token: bundle(39),
        delegate: id(50),
        amount: 1,
        authority: id(3),
        payer: id(3),
    };
    assert_eq!(asset.apply(&grant), CallOutcome::Rejected);
    assert_eq!(asset.delegate, None);
}

#[test]
fn token_record_rejects_core_calls() {
    let mut asset = PnftEntry { mint: id(40), delegate: None, locked: false };
    let call = RegistryCall::AttachFreeze { asset: id(40), collection: id(2), payer: id(3), frozen: true };
    assert_eq!(asset.apply(&call), CallOutcome::Rejected);
    assert_eq!(asset, PnftEntry { mint: id(40), delegate: None, locked: false });
}
