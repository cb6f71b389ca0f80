//! The state machine of one lockbox and its vault, as functions from the
//! custody pair and the caller to the next pair.

use vstd::prelude::*;
use crate::errors::LockBoxError;
use crate::identity::Identity;
use crate::instructions::close_lockbox::CloseLockBox;
use crate::instructions::deposit::Deposit;
use crate::instructions::emergency_withdraw::EmergencyWithdraw;
use crate::instructions::withdraw::Withdraw;
use crate::states::Custody;

verus! {

impl Custody {
    /// The pair after `caller` deposits `amount`, or why the deposit is
    /// refused.
    pub open spec fn after_deposit(self, caller: Identity, amount: u64) -> Result<
        Custody,
        LockBoxError,
    > {
        let ctx = Deposit { lockbox: self.lockbox, owner: caller, vault: self.vault };
        match ctx.refusal(amount) {
            Some(e) => Err(e),
            None => Ok(
                Custody { lockbox: ctx.after(amount).lockbox, vault: ctx.after(amount).vault },
            ),
        }
    }

    /// The pair after `caller` withdraws `amount`, or why the withdrawal is
    /// refused.
    pub open spec fn after_withdraw(self, caller: Identity, amount: u64) -> Result<
        Custody,
        LockBoxError,
    > {
        let ctx = Withdraw { lockbox: self.lockbox, owner: caller, vault: self.vault };
        match ctx.refusal(amount) {
            Some(e) => Err(e),
            None => Ok(
                Custody { lockbox: ctx.after(amount).lockbox, vault: ctx.after(amount).vault },
            ),
        }
    }

    /// The pair after the emergency withdrawal of `caller`, or why it is
    /// refused.
    pub open spec fn after_emergency_withdraw(self, caller: Identity) -> Result<
        Custody,
        LockBoxError,
    > {
        let ctx = EmergencyWithdraw { lockbox: self.lockbox, owner: caller, vault: self.vault };
        match ctx.refusal() {
            Some(e) => Err(e),
            None => Ok(Custody { lockbox: ctx.after().lockbox, vault: ctx.after().vault }),
        }
    }

    /// Why `caller` may not close the pair, if anything stands in the way.
    pub open spec fn close_refusal(self, caller: Identity) -> Option<LockBoxError> {
        (CloseLockBox { lockbox: self.lockbox, owner: caller, vault: self.vault }).refusal()
    }

    /// The pair after `caller` makes the deposits `amounts` one after the
    /// other, or the first refusal among them.
    pub open spec fn after_deposits(self, caller: Identity, amounts: Seq<u64>) -> Result<
        Custody,
        LockBoxError,
    >
        decreases amounts.len(),
    {
        if amounts.len() == 0 {
            Ok(self)
        } else {
            match self.after_deposits(caller, amounts.drop_last()) {
                Ok(so_far) => so_far.after_deposit(caller, amounts.last()),
                Err(e) => Err(e),
            }
        }
    }
}

/// The sum of the amounts.
pub open spec fn total(amounts: Seq<u64>) -> int
    decreases amounts.len(),
{
    if amounts.len() == 0 {
        0
    } else {
        total(amounts.drop_last()) + amounts.last()
    }
}

} // verus!
