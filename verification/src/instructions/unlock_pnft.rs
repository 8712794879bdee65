//! Unlocking a programmable asset: the service unlocks it, then its delegation is
//! revoked.

use vstd::pervasive::unreached;
use vstd::prelude::*;

use crate::error::StakingError;
use crate::identity::Identity;
use crate::ledger::PnftEntry;
use crate::policy::{authorization, authorize};
use crate::registry::{CallOutcome, RegistryCall, ServiceAuthority, TokenAccount, TokenBundle};
use crate::state::{Counter, GlobalPool};

verus! {

/// The accounts of a request to unlock a programmable asset.
#[derive(Clone, Copy, Debug, PartialEq, Eq)]
pub struct UnlockPNFT {
    /// The acting party, who signs the request and pays for it.
    pub payer: Identity,
    /// The owner of the asset, who need not sign.
    pub user: Identity,
    /// The service's signing authority, which is the asset's delegate.
    pub global_authority: ServiceAuthority,
    /// The asset's mint.
    pub token_mint: Identity,
    /// The token account that holds the asset.
    pub token_account: TokenAccount,
    /// The asset's edition.
    pub token_mint_edition: Identity,
    /// The asset's token record, which holds its delegate and its lock.
    pub token_mint_record: Identity,
    /// The asset's metadata.
    pub mint_metadata: Identity,
    /// The rule set the asset is bound to.
    pub auth_rules: Identity,
}

impl UnlockPNFT {
    /// Whether the accounts fit together: the token account must belong to `user` and
    /// hold the token of `token_mint`.
    pub open spec fn constraints(self) -> Result<(), StakingError> {
        if self.token_account.owner != self.user {
            Err(StakingError::InvalidAdmin)
        } else if self.token_account.mint != self.token_mint {
            Err(StakingError::ExternalCallFailed)
        } else {
            Ok(())
        }
    }

    /// Whether the request may go ahead in a pool that `admin` administers: the accounts
    /// must fit together, and the payer must be the owner or the administrator.
    pub open spec fn admission(self, admin: Identity) -> Result<(), StakingError> {
        match self.constraints() {
            Err(e) => Err(e),
            Ok(_) => authorization(self.user, self.payer, admin),
        }
    }

    /// The accounts that each call of this request names.
    pub open spec fn bundle(self) -> TokenBundle {
        TokenBundle {
            mint: self.token_mint,
            token_account: self.token_account.key,
            metadata: self.mint_metadata,
            edition: self.token_mint_edition,
            token_record: self.token_mint_record,
            rule_set: self.auth_rules,
        }
    }

    /// The first call: the service unlocks the asset as its delegate.
    pub open spec fn unlock_call(self) -> RegistryCall {
        RegistryCall::Unlock {
            token: self.bundle(),
            token_owner: self.user,
            authority: self.global_authority,
            payer: self.payer,
        }
    }

    /// The second call: the service's delegation is revoked, on the payer's signature.
    pub open spec fn revoke_call(self) -> RegistryCall {
        RegistryCall::RevokeDelegate {
            token: self.bundle(),
            delegate: self.global_authority.address,
            authority: self.payer,
            payer: self.payer,
        }
    }

    /// Checks that the accounts fit together.
    pub fn validate(&self) -> (r: Result<(), StakingError>)
        ensures
            r == self.constraints(),
    {
        if self.token_account.owner != self.user {
            Err(StakingError::InvalidAdmin)
        } else if self.token_account.mint != self.token_mint {
            Err(StakingError::ExternalCallFailed)
        } else {
            Ok(())
        }
    }

    /// Checks that the request may go ahead in a pool that `admin` administers.
    pub fn check_admission(&self, admin: &Identity) -> (r: Result<(), StakingError>)
        ensures
            r == self.admission(*admin),
    {
        match self.validate() {
            Err(e) => Err(e),
            Ok(_) => authorize(&self.user, &self.payer, admin),
        }
    }

    fn make_bundle(&self) -> (bundle: TokenBundle)
        ensures
            bundle == self.bundle(),
    {
        TokenBundle {
            mint: self.token_mint,
            token_account: self.token_account.key,
            metadata: self.mint_metadata,
            edition: self.token_mint_edition,
            token_record: self.token_mint_record,
            rule_set: self.auth_rules,
        }
    }
}

/// How far an unlock of a programmable asset has come.
#[derive(Clone, Copy, Debug, PartialEq, Eq, Structural)]
pub enum UnlockPnftStep {
    /// Nothing was done yet.
    Init,
    /// The unlock was asked for; its answer is awaited.
    AfterUnlock,
    /// The revocation was asked for; its answer is awaited.
    AfterRevoke,
    /// The asset is unlocked and no longer counted.
    Done,
    /// The request failed before any call was carried out; nothing was changed.
    Error(StakingError),
    /// The request failed at its second call: the asset is unlocked, the delegation
    /// still stands, and the pool was not touched.
    Partial,
}

impl UnlockPnftStep {
    /// The result of the request, once it has one.
    pub open spec fn finished(self) -> Option<Result<(), StakingError>> {
        match self {
            UnlockPnftStep::Done => Some(Ok(())),
            UnlockPnftStep::Error(e) => Some(Err(e)),
            UnlockPnftStep::Partial => Some(Err(StakingError::ExternalCallFailed)),
            _ => None,
        }
    }

    /// How many more times the handler can be asked before the request has a result.
    pub open spec fn turns_left(self) -> nat {
        match self {
            UnlockPnftStep::Init => 3,
            UnlockPnftStep::AfterUnlock => 2,
            UnlockPnftStep::AfterRevoke => 1,
            _ => 0,
        }
    }

    /// The result of the request, once it has one.
    pub fn result(&self) -> (r: Option<Result<(), StakingError>>)
        ensures
            r == self.finished(),
    {
        match self {
            UnlockPnftStep::Done => Some(Ok(())),
            UnlockPnftStep::Error(e) => Some(Err(*e)),
            UnlockPnftStep::Partial => Some(Err(StakingError::ExternalCallFailed)),
            _ => None,
        }
    }
}

/// One turn of an unlock of a programmable asset: the step that follows `step` once the
/// driver reports `response` to the call it was last given, the call to make next, and
/// the pool afterwards.
///
/// The request is admitted first, and nothing is called for one that is not. The asset is
/// unlocked before the delegation is revoked. A call that was not reported as accepted
/// ends the request: in `Error` where it was the first, in `Partial` where it was the
/// second, and what the first call did is not undone. The pool stops counting the asset
/// when the revocation was accepted, and not before. A request that has ended stays as it
/// is.
pub open spec fn unlock_pnft_transition(
    ctx: UnlockPNFT,
    pool: GlobalPool,
    step: UnlockPnftStep,
    response: Option<CallOutcome>,
) -> (UnlockPnftStep, Option<RegistryCall>, GlobalPool) {
    match step {
        UnlockPnftStep::Init => match ctx.admission(pool.admin) {
            Err(e) => (UnlockPnftStep::Error(e), None, pool),
            Ok(_) => (UnlockPnftStep::AfterUnlock, Some(ctx.unlock_call()), pool),
        },
        UnlockPnftStep::AfterUnlock => if response == Some(CallOutcome::Accepted) {
            (UnlockPnftStep::AfterRevoke, Some(ctx.revoke_call()), pool)
        } else {
            (UnlockPnftStep::Error(StakingError::ExternalCallFailed), None, pool)
        },
        UnlockPnftStep::AfterRevoke => if response == Some(CallOutcome::Accepted) {
            (UnlockPnftStep::Done, None, pool.decremented(Counter::Pnft))
        } else {
            (UnlockPnftStep::Partial, None, pool)
        },
        UnlockPnftStep::Done => (UnlockPnftStep::Done, None, pool),
        UnlockPnftStep::Error(e) => (UnlockPnftStep::Error(e), None, pool),
        UnlockPnftStep::Partial => (UnlockPnftStep::Partial, None, pool),
    }
}

/// Takes an unlock of a programmable asset one turn further. The driver starts with
/// `UnlockPnftStep::Init`, makes each call it is handed on the registry, and comes back
/// with the step it was given and the registry's answer, until no call is handed out.
pub fn unlock_pnft_handler(
    ctx: &UnlockPNFT,
    global_pool: &mut GlobalPool,
    step: UnlockPnftStep,
    response: Option<CallOutcome>,
) -> (next: (UnlockPnftStep, Option<RegistryCall>))
    requires
        step == UnlockPnftStep::AfterRevoke && response == Some(CallOutcome::Accepted) ==> old(
            global_pool,
        ).count(Counter::Pnft) > 0,
    ensures
        (next.0, next.1, *final(global_pool)) == unlock_pnft_transition(
            *ctx,
            *old(global_pool),
            step,
            response,
        ),
{
    match step {
        UnlockPnftStep::Init => match ctx.check_admission(&global_pool.admin) {
            Err(e) => (UnlockPnftStep::Error(e), None),
            Ok(_) => {
                let call = RegistryCall::Unlock {
                    token: ctx.make_bundle(),
                    token_owner: ctx.user,
                    authority: ctx.global_authority,
                    payer: ctx.payer,
                };
                (UnlockPnftStep::AfterUnlock, Some(call))
            },
        },
        UnlockPnftStep::AfterUnlock => match response {
            Some(CallOutcome::Accepted) => {
                let call = RegistryCall::RevokeDelegate {
                    token: ctx.make_bundle(),
                    delegate: ctx.global_authority.address,
                    authority: ctx.payer,
                    payer: ctx.payer,
                };
                (UnlockPnftStep::AfterRevoke, Some(call))
            },
            _ => (UnlockPnftStep::Error(StakingError::ExternalCallFailed), None),
        },
        UnlockPnftStep::AfterRevoke => match response {
            Some(CallOutcome::Accepted) => {
                global_pool.decrement(Counter::Pnft);
                (UnlockPnftStep::Done, None)
            },
            _ => (UnlockPnftStep::Partial, None),
        },
        UnlockPnftStep::Done => (UnlockPnftStep::Done, None),
        UnlockPnftStep::Error(e) => (UnlockPnftStep::Error(e), None),
        UnlockPnftStep::Partial => (UnlockPnftStep::Partial, None),
    }
}

/// What a whole unlock comes to on an asset that its registry holds as `entry`: the
/// result, the pool and the asset afterwards.
///
/// A request that is not admitted changes nothing. A refused unlock changes nothing. A
/// refused revocation leaves the asset unlocked and delegated, and the pool as it was.
/// Else the asset is unlocked, its delegation is gone, and the pool counts one less.
pub open spec fn unlock_pnft_outcome(ctx: UnlockPNFT, pool: GlobalPool, entry: PnftEntry) -> (
    Result<(), StakingError>,
    GlobalPool,
    PnftEntry,
) {
    let unlocked = entry.after(ctx.unlock_call());
    match ctx.admission(pool.admin) {
        Err(e) => (Err(e), pool, entry),
        Ok(_) => if !entry.accepts(ctx.unlock_call()) {
            (Err(StakingError::ExternalCallFailed), pool, entry)
        } else if !unlocked.accepts(ctx.revoke_call()) {
            (Err(StakingError::ExternalCallFailed), pool, unlocked)
        } else {
            (Ok(()), pool.decremented(Counter::Pnft), unlocked.after(ctx.revoke_call()))
        },
    }
}

/// Drives a whole unlock of a programmable asset, with `entry` in the registry's place.
pub fn unlock_pnft_on(ctx: &UnlockPNFT, global_pool: &mut GlobalPool, entry: &mut PnftEntry) -> (r:
    Result<(), StakingError>)
    requires
        unlock_pnft_outcome(*ctx, *old(global_pool), *old(entry)).0 is Ok ==> old(
            global_pool,
        ).count(Counter::Pnft) > 0,
    ensures
        (r, *final(global_pool), *final(entry)) == unlock_pnft_outcome(
            *ctx,
            *old(global_pool),
            *old(entry),
        ),
{
    let ghost pool0 = *global_pool;
    let ghost entry0 = *entry;
    let (first, first_call) = unlock_pnft_handler(ctx, global_pool, UnlockPnftStep::Init, None);
    let mut step = first;
    let mut call = first_call;
    while call.is_some()
        invariant
            unlock_pnft_outcome(*ctx, pool0, entry0).0 is Ok ==> pool0.count(Counter::Pnft) > 0,
            call is Some ==> step == UnlockPnftStep::AfterUnlock || step
                == UnlockPnftStep::AfterRevoke,
            step == UnlockPnftStep::AfterUnlock ==> {
                &&& call == Some(ctx.unlock_call())
                &&& ctx.admission(pool0.admin) is Ok
                &&& *global_pool == pool0
                &&& *entry == entry0
            },
            step == UnlockPnftStep::AfterRevoke ==> {
                &&& call == Some(ctx.revoke_call())
                &&& ctx.admission(pool0.admin) is Ok
                &&& entry0.accepts(ctx.unlock_call())
                &&& *global_pool == pool0
                &&& *entry == entry0.after(ctx.unlock_call())
            },
            call is None ==> {
                &&& step.finished() is Some
                &&& (step.finished()->0, *global_pool, *entry) == unlock_pnft_outcome(
                    *ctx,
                    pool0,
                    entry0,
                )
            },
        decreases step.turns_left(),
    {
        let outcome = entry.apply(&call.unwrap());
        let (next, next_call) = unlock_pnft_handler(ctx, global_pool, step, Some(outcome));
        step = next;
        call = next_call;
    }
    match step.result() {
        Some(r) => r,
        None => unreached(),
    }
}

} // verus!
