//! Close: the owner reclaims the record once the vault is empty.

use vstd::prelude::*;
use crate::effects::Effect;
use crate::errors::LockBoxError;
use crate::identity::Identity;
use crate::states::{LockBox, Vault};

verus! {

/// The accounts of a closure.
#[derive(Clone, Copy, Debug, PartialEq, Eq)]
pub struct CloseLockBox {
    pub lockbox: LockBox,
    /// The authenticated caller, who receives the reclaimed storage.
    pub owner: Identity,
    pub vault: Vault,
}

impl CloseLockBox {
    /// Why the closure is refused, if it is. Only the live balance of the
    /// vault counts: neither the bookkeeping total nor the active flag does.
    pub open spec fn refusal(&self) -> Option<LockBoxError> {
        if self.owner != self.lockbox.owner {
            Some(LockBoxError::Unauthorized)
        } else if self.vault.balance != 0 {
            Some(LockBoxError::InsufficientBalance)
        } else {
            None
        }
    }
}

/// Decides whether the record may be destroyed and its storage returned to
/// the owner.
pub fn close_lockbox(ctx: &CloseLockBox) -> (result: Result<Effect, LockBoxError>)
    ensures
        match ctx.refusal() {
            Some(e) => result == Err::<Effect, LockBoxError>(e),
            None => result == Ok::<Effect, LockBoxError>(Effect::Reclaim),
        },
{
    if ctx.owner != ctx.lockbox.owner {
        return Err(LockBoxError::Unauthorized);
    }
    let vault_balance: u64 = ctx.vault.balance;
    if vault_balance != 0 {
        return Err(LockBoxError::InsufficientBalance);
    }
    Ok(Effect::Reclaim)
}

} // verus!
