//! Locking a programmable asset: its owner delegates it to the service, then the service
//! locks it.

use vstd::pervasive::unreached;
use vstd::prelude::*;

use crate::error::StakingError;
use crate::identity::Identity;
use crate::ledger::PnftEntry;
use crate::metadata::{membership_of_data, verify_account, METADATA_KEY};
use crate::registry::{CallOutcome, RegistryCall, ServiceAuthority, TokenAccount, TokenBundle};
use crate::state::{Counter, GlobalPool};

verus! {

/// A metadata account: its address and the bytes it holds.
#[derive(Clone, Debug, PartialEq, Eq)]
pub struct MetadataAccount {
    pub key: Identity,
    pub data: Vec<u8>,
}

impl MetadataAccount {
    /// Whether the bytes show at once that the account holds no metadata record: there
    /// are none, or the first is not the key of such a record.
    pub open spec fn holds_no_record(self) -> bool {
        self.data@.len() == 0 || self.data@[0] != METADATA_KEY
    }
}

/// The accounts of a request to lock a programmable asset.
#[derive(Clone, Debug, PartialEq, Eq)]
pub struct LockPNFT {
    /// The owner of the asset, who signs the request and pays for it.
    pub user: Identity,
    /// The service's signing authority, which becomes the asset's delegate.
    pub global_authority: ServiceAuthority,
    /// The asset's mint.
    pub token_mint: Identity,
    /// The token account that holds the asset.
    pub token_account: TokenAccount,
    /// The asset's edition.
    pub token_mint_edition: Identity,
    /// The asset's token record, which holds its delegate and its lock.
    pub token_mint_record: Identity,
    /// The asset's metadata.
    pub mint_metadata: MetadataAccount,
    /// The rule set the asset is bound to.
    pub auth_rules: Identity,
}

impl LockPNFT {
    /// Whether the accounts fit together: the token account must belong to `user` and
    /// hold the token of `token_mint`.
    pub open spec fn constraints(self) -> Result<(), StakingError> {
        if self.token_account.owner != self.user {
            Err(StakingError::InvalidAdmin)
        } else if self.token_account.mint != self.token_mint {
            Err(StakingError::ExternalCallFailed)
        } else {
            Ok(())
        }
    }

    /// Whether the request may go ahead for an asset expected to belong with `expected`:
    /// the accounts must fit together, and the metadata must prove membership.
    pub open spec fn admission(self, expected: Identity) -> Result<(), StakingError> {
        match self.constraints() {
            Err(e) => Err(e),
            Ok(_) => match membership_of_data(self.mint_metadata.data@, expected) {
                Err(e) => Err(e),
                Ok(_) => Ok(()),
            },
        }
    }

    /// The accounts that each call of this request names.
    pub open spec fn bundle(self) -> TokenBundle {
        TokenBundle {
            mint: self.token_mint,
            token_account: self.token_account.key,
            metadata: self.mint_metadata.key,
            edition: self.token_mint_edition,
            token_record: self.token_mint_record,
            rule_set: self.auth_rules,
        }
    }

    /// The first call: the owner grants the service a staking delegation of one unit.
    pub open spec fn grant_call(self) -> RegistryCall {
        RegistryCall::GrantDelegate {
            token: self.bundle(),
            delegate: self.global_authority.address,
            amount: 1,
            authority: self.user,
            payer: self.user,
        }
    }

    /// The second call: the service locks the asset as its delegate.
    pub open spec fn lock_call(self) -> RegistryCall {
        RegistryCall::Lock {
            token: self.bundle(),
            token_owner: self.user,
            authority: self.global_authority,
            payer: self.user,
        }
    }

    /// Checks that the accounts fit together.
    pub fn validate(&self) -> (r: Result<(), StakingError>)
        ensures
            r == self.constraints(),
    {
        if self.token_account.owner != self.user {
            Err(StakingError::InvalidAdmin)
        } else if self.token_account.mint != self.token_mint {
            Err(StakingError::ExternalCallFailed)
        } else {
            Ok(())
        }
    }

    /// Checks that the request may go ahead for `expected`.
    pub fn check_admission(&self, expected: &Identity) -> (r: Result<(), StakingError>)
        ensures
            r == self.admission(*expected),
            self.constraints() is Ok && self.mint_metadata.holds_no_record() ==> r == Err::<
                (),
                StakingError,
            >(StakingError::MetadataParseError),
    {
        match self.validate() {
            Err(e) => Err(e),
            Ok(_) => match verify_account(self.mint_metadata.data.as_slice(), expected) {
                Err(e) => Err(e),
                Ok(_) => Ok(()),
            },
        }
    }

    fn make_bundle(&self) -> (bundle: TokenBundle)
        ensures
            bundle == self.bundle(),
    {
        TokenBundle {
            mint: self.token_mint,
            token_account: self.token_account.key,
            metadata: self.mint_metadata.key,
            edition: self.token_mint_edition,
            token_record: self.token_mint_record,
            rule_set: self.auth_rules,
        }
    }
}

/// How far a lock of a programmable asset has come.
#[derive(Clone, Copy, Debug, PartialEq, Eq, Structural)]
pub enum LockPnftStep {
    /// Nothing was done yet.
    Init,
    /// The delegation was asked for; its answer is awaited.
    AfterGrant,
    /// The lock was asked for; its answer is awaited.
    AfterLock,
    /// The asset is locked and counted.
    Done,
    /// The request failed before any call was carried out; nothing was changed.
    Error(StakingError),
    /// The request failed at its second call: the delegation stands, the asset is not
    /// locked, and the pool was not touched.
    Partial,
}

impl LockPnftStep {
    /// The result of the request, once it has one.
    pub open spec fn finished(self) -> Option<Result<(), StakingError>> {
        match self {
            LockPnftStep::Done => Some(Ok(())),
            LockPnftStep::Error(e) => Some(Err(e)),
            LockPnftStep::Partial => Some(Err(StakingError::ExternalCallFailed)),
            _ => None,
        }
    }

    /// How many more times the handler can be asked before the request has a result.
    pub open spec fn turns_left(self) -> nat {
        match self {
            LockPnftStep::Init => 3,
            LockPnftStep::AfterGrant => 2,
            LockPnftStep::AfterLock => 1,
            _ => 0,
        }
    }

    /// The result of the request, once it has one.
    pub fn result(&self) -> (r: Option<Result<(), StakingError>>)
        ensures
            r == self.finished(),
    {
        match self {
            LockPnftStep::Done => Some(Ok(())),
            LockPnftStep::Error(e) => Some(Err(*e)),
            LockPnftStep::Partial => Some(Err(StakingError::ExternalCallFailed)),
            _ => None,
        }
    }
}

/// One turn of a lock of a programmable asset: the step that follows `step` once the
/// driver reports `response` to the call it was last given, the call to make next, and
/// the pool afterwards.
///
/// The request is admitted first, and nothing is called for one that is not. The
/// delegation is granted before the lock is made. A call that was not reported as
/// accepted ends the request: in `Error` where it was the first, in `Partial` where it
/// was the second, and what the first call did is not undone. The pool counts the asset
/// when the lock was accepted, and not before. A request that has ended stays as it is.
pub open spec fn lock_pnft_transition(
    ctx: LockPNFT,
    expected: Identity,
    pool: GlobalPool,
    step: LockPnftStep,
    response: Option<CallOutcome>,
) -> (LockPnftStep, Option<RegistryCall>, GlobalPool) {
    match step {
        LockPnftStep::Init => match ctx.admission(expected) {
            Err(e) => (LockPnftStep::Error(e), None, pool),
            Ok(_) => (LockPnftStep::AfterGrant, Some(ctx.grant_call()), pool),
        },
        LockPnftStep::AfterGrant => if response == Some(CallOutcome::Accepted) {
            (LockPnftStep::AfterLock, Some(ctx.lock_call()), pool)
        } else {
            (LockPnftStep::Error(StakingError::ExternalCallFailed), None, pool)
        },
        LockPnftStep::AfterLock => if response == Some(CallOutcome::Accepted) {
            (LockPnftStep::Done, None, pool.incremented(Counter::Pnft))
        } else {
            (LockPnftStep::Partial, None, pool)
        },
        LockPnftStep::Done => (LockPnftStep::Done, None, pool),
        LockPnftStep::Error(e) => (LockPnftStep::Error(e), None, pool),
        LockPnftStep::Partial => (LockPnftStep::Partial, None, pool),
    }
}

/// Takes a lock of a programmable asset one turn further. The driver starts with
/// `LockPnftStep::Init`, makes each call it is handed on the registry, and comes back with
/// the step it was given and the registry's answer, until no call is handed out.
pub fn lock_pnft_handler(
    ctx: &LockPNFT,
    expected: &Identity,
    global_pool: &mut GlobalPool,
    step: LockPnftStep,
    response: Option<CallOutcome>,
) -> (next: (LockPnftStep, Option<RegistryCall>))
    requires
        step == LockPnftStep::AfterLock && response == Some(CallOutcome::Accepted) ==> old(
            global_pool,
        ).count(Counter::Pnft) < u64::MAX,
    ensures
        (next.0, next.1, *final(global_pool)) == lock_pnft_transition(
            *ctx,
            *expected,
            *old(global_pool),
            step,
            response,
        ),
        step == LockPnftStep::Init && ctx.constraints() is Ok
            && ctx.mint_metadata.holds_no_record() ==> next.0 == LockPnftStep::Error(
            StakingError::MetadataParseError,
        ),
{
    match step {
        LockPnftStep::Init => match ctx.check_admission(expected) {
            Err(e) => (LockPnftStep::Error(e), None),
            Ok(_) => {
                let call = RegistryCall::GrantDelegate {
                    token: ctx.make_bundle(),
                    delegate: ctx.global_authority.address,
                    amount: 1,
                    authority: ctx.user,
                    payer: ctx.user,
                };
                (LockPnftStep::AfterGrant, Some(call))
            },
        },
        LockPnftStep::AfterGrant => match response {
            Some(CallOutcome::Accepted) => {
                let call = RegistryCall::Lock {
                    token: ctx.make_bundle(),
                    token_owner: ctx.user,
                    authority: ctx.global_authority,
                    payer: ctx.user,
                };
                (LockPnftStep::AfterLock, Some(call))
            },
            _ => (LockPnftStep::Error(StakingError::ExternalCallFailed), None),
        },
        LockPnftStep::AfterLock => match response {
            Some(CallOutcome::Accepted) => {
                global_pool.increment(Counter::Pnft);
                (LockPnftStep::Done, None)
            },
            _ => (LockPnftStep::Partial, None),
        },
        LockPnftStep::Done => (LockPnftStep::Done, None),
        LockPnftStep::Error(e) => (LockPnftStep::Error(e), None),
        LockPnftStep::Partial => (LockPnftStep::Partial, None),
    }
}

/// What a whole lock comes to on an asset that its registry holds as `entry`: the result,
/// the pool and the asset afterwards.
///
/// A request that is not admitted changes nothing. A refused delegation changes nothing.
/// A refused lock leaves the delegation standing, and the pool as it was. Else the asset
/// is delegated, locked and counted.
pub open spec fn lock_pnft_outcome(
    ctx: LockPNFT,
    expected: Identity,
    pool: GlobalPool,
    entry: PnftEntry,
) -> (Result<(), StakingError>, GlobalPool, PnftEntry) {
    let granted = entry.after(ctx.grant_call());
    match ctx.admission(expected) {
        Err(e) => (Err(e), pool, entry),
        Ok(_) => if !entry.accepts(ctx.grant_call()) {
            (Err(StakingError::ExternalCallFailed), pool, entry)
        } else if !granted.accepts(ctx.lock_call()) {
            (Err(StakingError::ExternalCallFailed), pool, granted)
        } else {
            (Ok(()), pool.incremented(Counter::Pnft), granted.after(ctx.lock_call()))
        },
    }
}

/// Drives a whole lock of a programmable asset, with `entry` in the registry's place.
pub fn lock_pnft_on(
    ctx: &LockPNFT,
    expected: &Identity,
    global_pool: &mut GlobalPool,
    entry: &mut PnftEntry,
) -> (r: Result<(), StakingError>)
    requires
        old(global_pool).count(Counter::Pnft) < u64::MAX,
    ensures
        (r, *final(global_pool), *final(entry)) == lock_pnft_outcome(
            *ctx,
            *expected,
            *old(global_pool),
            *old(entry),
        ),
{
    let ghost pool0 = *global_pool;
    let ghost entry0 = *entry;
    let (first, first_call) = lock_pnft_handler(
        ctx,
        expected,
        global_pool,
        LockPnftStep::Init,
        None,
    );
    let mut step = first;
    let mut call = first_call;
    while call.is_some()
        invariant
            pool0.count(Counter::Pnft) < u64::MAX,
            call is Some ==> step == LockPnftStep::AfterGrant || step == LockPnftStep::AfterLock,
            step == LockPnftStep::AfterGrant ==> {
                &&& call == Some(ctx.grant_call())
                &&& ctx.admission(*expected) is Ok
                &&& *global_pool == pool0
                &&& *entry == entry0
            },
            step == LockPnftStep::AfterLock ==> {
                &&& call == Some(ctx.lock_call())
                &&& ctx.admission(*expected) is Ok
                &&& entry0.accepts(ctx.grant_call())
                &&& *global_pool == pool0
                &&& *entry == entry0.after(ctx.grant_call())
            },
            call is None ==> {
                &&& step.finished() is Some
                &&& (step.finished()->0, *global_pool, *entry) == lock_pnft_outcome(
                    *ctx,
                    *expected,
                    pool0,
                    entry0,
                )
            },
        decreases step.turns_left(),
    {
        let outcome = entry.apply(&call.unwrap());
        let (next, next_call) = lock_pnft_handler(ctx, expected, global_pool, step, Some(outcome));
        step = next;
        call = next_call;
    }
    match step.result() {
        Some(r) => r,
        None => unreached(),
    }
}

} // verus!
