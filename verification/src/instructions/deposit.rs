//! Deposit: value moves from the owner into the vault.

use vstd::prelude::*;
use crate::effects::Effect;
use crate::errors::LockBoxError;
use crate::identity::Identity;
use crate::states::{LockBox, Vault};

verus! {

/// The accounts of a deposit.
#[derive(Clone, Copy, Debug, PartialEq, Eq)]
pub struct Deposit {
    pub lockbox: LockBox,
    /// The authenticated caller.
    pub owner: Identity,
    pub vault: Vault,
}

impl Deposit {
    /// Adding `amount` would carry the bookkeeping total or the balance of the
    /// vault past the largest 64-bit value.
    pub open spec fn overflows(&self, amount: u64) -> bool {
        ||| self.lockbox.deposited_amount + amount > u64::MAX
        ||| self.vault.balance + amount > u64::MAX
    }

    /// Why a deposit of `amount` is refused, if it is. The checks are made in
    /// this order and the first that fails decides. There is no upper bound
    /// relative to the target.
    pub open spec fn refusal(&self, amount: u64) -> Option<LockBoxError> {
        if self.owner != self.lockbox.owner {
            Some(LockBoxError::Unauthorized)
        } else if !self.lockbox.active {
            Some(LockBoxError::InactiveLockBox)
        } else if amount == 0 {
            Some(LockBoxError::InvalidAmount)
        } else if self.overflows(amount) {
            Some(LockBoxError::ArithmeticOverflow)
        } else {
            None
        }
    }

    /// The accounts after `amount` has entered the vault: balance and
    /// bookkeeping total grow in lockstep.
    pub open spec fn after(&self, amount: u64) -> Deposit {
        Deposit {
            lockbox: LockBox {
                owner: self.lockbox.owner,
                target_amount: self.lockbox.target_amount,
                deposited_amount: (self.lockbox.deposited_amount + amount) as u64,
                active: self.lockbox.active,
                vault_reference: self.lockbox.vault_reference,
            },
            owner: self.owner,
            vault: Vault { balance: (self.vault.balance + amount) as u64 },
        }
    }
}

/// Adds `amount` to the vault and to the bookkeeping total.
pub fn deposit(ctx: &mut Deposit, amount: u64) -> (result: Result<Effect, LockBoxError>)
    ensures
        match old(ctx).refusal(amount) {
            Some(e) => result == Err::<Effect, LockBoxError>(e) && *final(ctx) == *old(ctx),
            None => {
                &&& result == Ok::<Effect, LockBoxError>(Effect::MoveIntoVault { amount })
                &&& *final(ctx) == old(ctx).after(amount)
            },
        },
{
    if ctx.owner != ctx.lockbox.owner {
        return Err(LockBoxError::Unauthorized);
    }
    if !ctx.lockbox.active {
        return Err(LockBoxError::InactiveLockBox);
    }
    if amount == 0 {
        return Err(LockBoxError::InvalidAmount);
    }
    let total = match ctx.lockbox.deposited_amount.checked_add(amount) {
        Some(total) => total,
        None => {
            return Err(LockBoxError::ArithmeticOverflow);
        },
    };
    let balance = match ctx.vault.balance.checked_add(amount) {
        Some(balance) => balance,
        None => {
            return Err(LockBoxError::ArithmeticOverflow);
        },
    };
    ctx.lockbox.deposited_amount = total;
    ctx.vault.balance = balance;
    Ok(Effect::MoveIntoVault { amount })
}

} // verus!
