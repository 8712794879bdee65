//! Who may unlock an asset.

use vstd::prelude::*;

use crate::error::StakingError;
use crate::identity::Identity;

verus! {

/// Who may unlock an asset: its owner, and the administrator of the pool.
pub open spec fn may_unlock(owner: Identity, actor: Identity, admin: Identity) -> bool {
    actor == owner || actor == admin
}

/// What the policy answers to `actor`, who asks to unlock an asset of `owner`.
pub open spec fn authorization(owner: Identity, actor: Identity, admin: Identity) -> Result<
    (),
    StakingError,
> {
    if may_unlock(owner, actor, admin) {
        Ok(())
    } else {
        Err(StakingError::InvalidAdmin)
    }
}

/// Decides whether `actor` may unlock an asset of `owner`, in a pool that `admin`
/// administers.
pub fn authorize(owner: &Identity, actor: &Identity, admin: &Identity) -> (r: Result<
    (),
    StakingError,
>)
    ensures
        r == authorization(*owner, *actor, *admin),
        r is Ok <==> *actor == *owner || *actor == *admin,
        r is Err ==> r == Err::<(), StakingError>(StakingError::InvalidAdmin),
{
    if *actor == *owner {
        Ok(())
    } else if *admin == *actor {
        Ok(())
    } else {
        Err(StakingError::InvalidAdmin)
    }
}

} // verus!
