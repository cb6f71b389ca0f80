//! Emergency withdraw: the one-time exit that empties the vault and
//! deactivates the lockbox for good.

use vstd::prelude::*;
use crate::effects::Effect;
use crate::errors::LockBoxError;
use crate::identity::Identity;
use crate::states::{LockBox, Vault};

verus! {

/// The accounts of an emergency withdrawal.
#[derive(Clone, Copy, Debug, PartialEq, Eq)]
pub struct EmergencyWithdraw {
    pub lockbox: LockBox,
    /// The authenticated caller.
    pub owner: Identity,
    pub vault: Vault,
}

impl EmergencyWithdraw {
    /// Why the emergency withdrawal is refused, if it is. The target plays no
    /// part, and neither does the balance of the vault.
    pub open spec fn refusal(&self) -> Option<LockBoxError> {
        if self.owner != self.lockbox.owner {
            Some(LockBoxError::Unauthorized)
        } else if !self.lockbox.active {
            Some(LockBoxError::InactiveLockBox)
        } else {
            None
        }
    }

    /// The accounts after the exit: an empty vault and a deactivated record
    /// whose bookkeeping total is back at zero.
    pub open spec fn after(&self) -> EmergencyWithdraw {
        EmergencyWithdraw {
            lockbox: LockBox {
                owner: self.lockbox.owner,
                target_amount: self.lockbox.target_amount,
                deposited_amount: 0,
                active: false,
                vault_reference: self.lockbox.vault_reference,
            },
            owner: self.owner,
            vault: Vault { balance: 0 },
        }
    }
}

/// Releases the whole balance of the vault to the owner, in one action, and
/// deactivates the lockbox.
pub fn emergency_withdraw(ctx: &mut EmergencyWithdraw) -> (result: Result<Effect, LockBoxError>)
    ensures
        match old(ctx).refusal() {
            Some(e) => result == Err::<Effect, LockBoxError>(e) && *final(ctx) == *old(ctx),
            None => {
                &&& result == Ok::<Effect, LockBoxError>(
                    Effect::MoveToOwner { amount: old(ctx).vault.balance },
                )
                &&& *final(ctx) == old(ctx).after()
            },
        },
{
    if ctx.owner != ctx.lockbox.owner {
        return Err(LockBoxError::Unauthorized);
    }
    if !ctx.lockbox.active {
        return Err(LockBoxError::InactiveLockBox);
    }
    let amount: u64 = ctx.vault.balance;
    ctx.vault.balance = 0;
    ctx.lockbox.deposited_amount = 0;
    ctx.lockbox.active = false;
    Ok(Effect::MoveToOwner { amount })
}

} // verus!
