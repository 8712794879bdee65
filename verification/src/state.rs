//! The pool: the administrator and the two counts of locked assets.

use vstd::prelude::*;

use crate::identity::Identity;

verus! {

/// The two counters of the pool.
#[derive(Clone, Copy, Debug, PartialEq, Eq, Structural)]
pub enum Counter {
    /// Core assets, locked by a freeze capability.
    CoreNft,
    /// Programmable assets, locked through a staking delegate.
    Pnft,
}

/// The one record this service owns: who administers it and how many assets of each
/// kind it holds locked.
#[derive(Clone, Copy, Debug, PartialEq, Eq)]
pub struct GlobalPool {
    /// May unlock any asset in place of its owner.
    pub admin: Identity,
    /// Programmable assets locked at present.
    pub total_pnft_staked_count: u64,
    /// Core assets locked at present.
    pub total_corenft_staked_count: u64,
    /// Kept free for later use.
    pub extra: u128,
}

impl GlobalPool {
    /// Bytes the record takes in its account: an 8-byte tag, the administrator,
    /// both counters and the spare field.
    pub const DATA_SIZE: usize = 8 + 32 + 8 + 8 + 16;

    /// A pool with the given administrator and nothing locked.
    pub fn new(admin: Identity) -> (pool: GlobalPool)
        ensures
            pool == (GlobalPool {
                admin,
                total_pnft_staked_count: 0,
                total_corenft_staked_count: 0,
                extra: 0,
            }),
    {
        GlobalPool { admin, total_pnft_staked_count: 0, total_corenft_staked_count: 0, extra: 0 }
    }

    /// The value of one counter.
    pub open spec fn count(self, counter: Counter) -> u64 {
        match counter {
            Counter::CoreNft => self.total_corenft_staked_count,
            Counter::Pnft => self.total_pnft_staked_count,
        }
    }

    /// This pool with one counter set to `value` and nothing else touched.
    pub open spec fn with_count(self, counter: Counter, value: u64) -> GlobalPool {
        match counter {
            Counter::CoreNft => GlobalPool { total_corenft_staked_count: value, ..self },
            Counter::Pnft => GlobalPool { total_pnft_staked_count: value, ..self },
        }
    }

    /// This pool after one more asset was locked.
    pub open spec fn incremented(self, counter: Counter) -> GlobalPool
        recommends
            self.count(counter) < u64::MAX,
    {
        self.with_count(counter, (self.count(counter) + 1) as u64)
    }

    /// This pool after one asset was unlocked.
    pub open spec fn decremented(self, counter: Counter) -> GlobalPool
        recommends
            self.count(counter) > 0,
    {
        self.with_count(counter, (self.count(counter) - 1) as u64)
    }

    /// Reads one counter.
    pub fn get(&self, counter: Counter) -> (n: u64)
        ensures
            n == self.count(counter),
    {
        match counter {
            Counter::CoreNft => self.total_corenft_staked_count,
            Counter::Pnft => self.total_pnft_staked_count,
        }
    }

    /// Counts one more locked asset.
    pub fn increment(&mut self, counter: Counter)
        requires
            old(self).count(counter) < u64::MAX,
        ensures
            *final(self) == old(self).incremented(counter),
            final(self).count(counter) == old(self).count(counter) + 1,
    {
        match counter {
            Counter::CoreNft => {
                self.total_corenft_staked_count = self.total_corenft_staked_count + 1;
            },
            Counter::Pnft => {
                self.total_pnft_staked_count = self.total_pnft_staked_count + 1;
            },
        }
    }

    /// Counts one locked asset less.
    pub fn decrement(&mut self, counter: Counter)
        requires
            old(self).count(counter) > 0,
        ensures
            *final(self) == old(self).decremented(counter),
            final(self).count(counter) == old(self).count(counter) - 1,
    {
        match counter {
            Counter::CoreNft => {
                self.total_corenft_staked_count = self.total_corenft_staked_count - 1;
            },
            Counter::Pnft => {
                self.total_pnft_staked_count = self.total_pnft_staked_count - 1;
            },
        }
    }
}

impl Default for GlobalPool {
    /// The pool before anyone administers it: the all-zero identity, nothing locked.
    fn default() -> (pool: GlobalPool)
        ensures
            pool.admin.is_zero(),
            pool.total_pnft_staked_count == 0,
            pool.total_corenft_staked_count == 0,
            pool.extra == 0,
    {
        GlobalPool {
            admin: Identity::default(),
            total_pnft_staked_count: 0,
            total_corenft_staked_count: 0,
            extra: 0,
        }
    }
}

} // verus!
