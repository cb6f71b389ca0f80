//! Withdraw: the owner takes value out of the vault once the goal is met.

use vstd::prelude::*;
use crate::effects::Effect;
use crate::errors::LockBoxError;
use crate::identity::Identity;
use crate::states::{LockBox, Vault};

verus! {

/// The accounts of a withdrawal.
#[derive(Clone, Copy, Debug, PartialEq, Eq)]
pub struct Withdraw {
    pub lockbox: LockBox,
    /// The authenticated caller.
    pub owner: Identity,
    pub vault: Vault,
}

impl Withdraw {
    /// Why a withdrawal of `amount` is refused, if it is. The checks are made
    /// in this order and the first that fails decides.
    pub open spec fn refusal(&self, amount: u64) -> Option<LockBoxError> {
        if self.owner != self.lockbox.owner {
            Some(LockBoxError::Unauthorized)
        } else if !self.lockbox.active {
            Some(LockBoxError::InactiveLockBox)
        } else if amount == 0 {
            Some(LockBoxError::InvalidAmount)
        } else if !self.lockbox.target_reached() {
            Some(LockBoxError::TargetNotReached)
        } else if amount > self.vault.balance {
            Some(LockBoxError::InsufficientBalance)
        } else {
            None
        }
    }

    /// The accounts after `amount` has left the vault. The record keeps its
    /// total of deposits: a withdrawal is not a negative deposit.
    pub open spec fn after(&self, amount: u64) -> Withdraw {
        Withdraw {
            lockbox: self.lockbox,
            owner: self.owner,
            vault: Vault { balance: (self.vault.balance - amount) as u64 },
        }
    }
}

/// Takes `amount` out of the vault for the owner. The target is judged once,
/// against the bookkeeping total at the time of the call.
pub fn withdraw(ctx: &mut Withdraw, amount: u64) -> (result: Result<Effect, LockBoxError>)
    ensures
        match old(ctx).refusal(amount) {
            Some(e) => result == Err::<Effect, LockBoxError>(e) && *final(ctx) == *old(ctx),
            None => {
                &&& result == Ok::<Effect, LockBoxError>(Effect::MoveToOwner { amount })
                &&& *final(ctx) == old(ctx).after(amount)
            },
        },
{
    if ctx.owner != ctx.lockbox.owner {
        return Err(LockBoxError::Unauthorized);
    }
    if !ctx.lockbox.active {
        return Err(LockBoxError::InactiveLockBox);
    }
    if amount == 0 {
        return Err(LockBoxError::InvalidAmount);
    }
    if !ctx.lockbox.is_target_reached() {
        return Err(LockBoxError::TargetNotReached);
    }
    if amount > ctx.vault.balance {
        return Err(LockBoxError::InsufficientBalance);
    }
    ctx.vault.balance = ctx.vault.balance - amount;
    Ok(Effect::MoveToOwner { amount })
}

} // verus!
