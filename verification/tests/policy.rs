use mpl_corenft_staking::error::StakingError;
use mpl_corenft_staking::identity::Identity;
use mpl_corenft_staking::policy::authorize;

fn id(n: u8) -> Identity {
    Identity::new([n; 32])
}

#[test]
fn owner_is_authorized() {
    assert_eq!(authorize(&id(1), &id(1), &id(2)), Ok(()));
}

#[test]
fn admin_is_authorized_for_another_owner() {
    assert_eq!(authorize(&id(1), &id(2), &id(2)), Ok(()));
}

#[test]
fn owner_who_is_admin_is_authorized() {
    assert_eq!(authorize(&id(1), &id(1), &id(1)), Ok(()));
}

#[test]
fn third_party_is_not_authorized() {
    assert_eq!(authorize(&id(1), &id(3), &id(2)), Err(StakingError::InvalidAdmin));
}

#[test]
fn near_miss_of_the_admin_is_not_authorized() {
    let mut bytes = [2u8; 32];
    bytes[17] = 3;
    assert_eq!(
        authorize(&id(1), &Identity::new(bytes), &id(2)),
        Err(StakingError::InvalidAdmin)
    );
}
