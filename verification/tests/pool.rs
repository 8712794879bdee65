use mpl_corenft_staking::identity::Identity;
use mpl_corenft_staking::state::{Counter, GlobalPool};

fn id(n: u8) -> Identity {
    Identity::new([n; 32])
}

#[test]
fn identity_equality_is_bytewise() {
    let mut bytes = [7u8; 32];
    assert_eq!(Identity::new(bytes), id(7));
    bytes[31] = 8;
    assert_ne!(Identity::new(bytes), id(7));
    bytes[31] = 7;
    bytes[0] = 0;
    assert_ne!(Identity::new(bytes), id(7));
    assert_eq!(id(7).to_bytes(), [7u8; 32]);
}

#[test]
fn identity_default_is_all_zero() {
    assert_eq!(Identity::default().to_bytes(), [0u8; 32]);
}

#[test]
fn default_pool_is_empty_and_unowned() {
    let pool = GlobalPool::default();
    assert_eq!(pool.admin, Identity::new([0u8; 32]));
    assert_eq!(pool.total_pnft_staked_count, 0);
    assert_eq!(pool.total_corenft_staked_count, 0);
    assert_eq!(pool.extra, 0);
}

#[test]
fn new_pool_has_its_admin_and_nothing_locked() {
    let pool = GlobalPool::new(id(9));
    assert_eq!(
        pool,
        GlobalPool {
            admin: id(9),
            total_pnft_staked_count: 0,
            total_corenft_staked_count: 0,
            extra: 0,
        }
    );
}

#[test]
fn pool_record_takes_72_bytes() {
    assert_eq!(GlobalPool::DATA_SIZE, 72);
}

#[test]
fn increment_moves_one_counter_by_one() {
    let mut pool = GlobalPool::new(id(1));
    pool.extra = 5;
    pool.increment(Counter::CoreNft);
    assert_eq!(pool.total_corenft_staked_count, 1);
    assert_eq!(pool.total_pnft_staked_count, 0);
    pool.increment(Counter::Pnft);
    pool.increment(Counter::Pnft);
    assert_eq!(pool.total_corenft_staked_count, 1);
    assert_eq!(pool.total_pnft_staked_count, 2);
    assert_eq!(pool.get(Counter::CoreNft), 1);
    assert_eq!(pool.get(Counter::Pnft), 2);
    assert_eq!(pool.admin, id(1));
    assert_eq!(pool.extra, 5);
}

#[test]
fn decrement_moves_one_counter_by_one() {
    let mut pool = GlobalPool::new(id(1));
    pool.total_corenft_staked_count = 3;
    pool.total_pnft_staked_count = 1;
    pool.decrement(Counter::CoreNft);
    assert_eq!(pool.total_corenft_staked_count, 2);
    assert_eq!(pool.total_pnft_staked_count, 1);
    pool.decrement(Counter::Pnft);
    assert_eq!(pool.total_corenft_staked_count, 2);
    assert_eq!(pool.total_pnft_staked_count, 0);
}

#[test]
fn increment_reaches_the_largest_count() {
    let mut pool = GlobalPool::new(id(1));
    pool.total_pnft_staked_count = u64::MAX - 1;
    pool.increment(Counter::Pnft);
    assert_eq!(pool.total_pnft_staked_count, u64::MAX);
}
