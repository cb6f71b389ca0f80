//! What holds of a lockbox over its whole life, whatever the amounts and
//! whoever calls.

use vstd::prelude::*;
use crate::errors::LockBoxError;
use crate::identity::Identity;
use crate::states::{Custody, Derivation, LockBox, Vault};
use crate::transitions::total;

verus! {

/// Deposits never drift: after any run of deposits that all succeeded, the
/// vault holds what it held before plus the sum of the amounts, and so does
/// the bookkeeping total. From an empty vault the balance is the sum itself.
/// Nothing else in the record has changed.
pub proof fn lemma_deposits_add_up(start: Custody, caller: Identity, amounts: Seq<u64>)
    requires
        start.after_deposits(caller, amounts) is Ok,
    ensures
        ({
            let end = start.after_deposits(caller, amounts)->Ok_0;
            &&& end.vault.balance == start.vault.balance + total(amounts)
            &&& end.lockbox.deposited_amount == start.lockbox.deposited_amount + total(amounts)
            &&& start.vault.balance == 0 ==> end.vault.balance == total(amounts)
            &&& end.lockbox.same_terms(&start.lockbox)
            &&& end.lockbox.active == start.lockbox.active
        }),
    decreases amounts.len(),
{
    if amounts.len() > 0 {
        lemma_deposits_add_up(start, caller, amounts.drop_last());
    }
}

/// A run of deposits succeeds exactly when there is nothing to do, or the
/// caller owns an active lockbox, no amount is zero, and neither the balance
/// of the vault nor the bookkeeping total would pass the largest 64-bit
/// value.
pub proof fn lemma_deposits_succeed(start: Custody, caller: Identity, amounts: Seq<u64>)
    ensures
        total(amounts) >= 0,
        start.after_deposits(caller, amounts) is Ok <==> amounts.len() == 0 || {
            &&& caller == start.lockbox.owner
            &&& start.lockbox.active
            &&& forall|i: int| 0 <= i < amounts.len() ==> amounts[i] > 0
            &&& start.vault.balance + total(amounts) <= u64::MAX
            &&& start.lockbox.deposited_amount + total(amounts) <= u64::MAX
        },
    decreases amounts.len(),
{
    if amounts.len() > 0 {
        let earlier = amounts.drop_last();
        lemma_deposits_succeed(start, caller, earlier);
        assert(forall|i: int| 0 <= i < earlier.len() ==> earlier[i] == amounts[i]);
        if start.after_deposits(caller, earlier) is Ok {
            lemma_deposits_add_up(start, caller, earlier);
        }
        if amounts.len() == 1 {
            assert(earlier.len() == 0);
        }
    }
}

/// For the owner of an active lockbox and an amount above zero, a
/// withdrawal succeeds exactly when the bookkeeping total has reached the
/// target and the vault holds the amount. Short of the target it is refused
/// as such; otherwise a vault that holds too little is the reason. On
/// success only the balance of the vault changes, by exactly the amount.
pub proof fn lemma_withdraw_gate(custody: Custody, caller: Identity, amount: u64)
    requires
        caller == custody.lockbox.owner,
        custody.lockbox.active,
        amount > 0,
    ensures
        custody.after_withdraw(caller, amount) is Ok <==> custody.lockbox.target_reached()
            && amount <= custody.vault.balance,
        !custody.lockbox.target_reached() ==> custody.after_withdraw(caller, amount) == Err::<
            Custody,
            LockBoxError,
        >(LockBoxError::TargetNotReached),
        custody.lockbox.target_reached() && amount > custody.vault.balance
            ==> custody.after_withdraw(caller, amount) == Err::<Custody, LockBoxError>(
            LockBoxError::InsufficientBalance,
        ),
        custody.after_withdraw(caller, amount) matches Ok(next) ==> {
            &&& next.lockbox == custody.lockbox
            &&& next.vault.balance == custody.vault.balance - amount
        },
{
}

/// The emergency withdrawal works once. After it has succeeded, every later
/// one on the same lockbox is refused, whatever the vault holds by then and
/// whoever calls: as inactive for the owner, as unauthorized for anyone
/// else.
pub proof fn lemma_emergency_withdraw_once(
    custody: Custody,
    caller: Identity,
    later_vault: Vault,
    later_caller: Identity,
)
    requires
        custody.after_emergency_withdraw(caller) is Ok,
    ensures
        ({
            let deactivated = custody.after_emergency_withdraw(caller)->Ok_0.lockbox;
            let again = (Custody {
                lockbox: deactivated,
                vault: later_vault,
            }).after_emergency_withdraw(later_caller);
            &&& again is Err
            &&& later_caller == caller ==> again == Err::<Custody, LockBoxError>(
                LockBoxError::InactiveLockBox,
            )
            &&& later_caller != caller ==> again == Err::<Custody, LockBoxError>(
                LockBoxError::Unauthorized,
            )
        }),
{
}

/// The owner may close exactly when the vault is empty. Whether the lockbox
/// is active, and what its bookkeeping says, makes no difference.
pub proof fn lemma_close_needs_empty_vault(custody: Custody, other: Custody, caller: Identity)
    requires
        caller == custody.lockbox.owner,
        other.lockbox.owner == custody.lockbox.owner,
        other.vault == custody.vault,
    ensures
        custody.close_refusal(caller) is None <==> custody.vault.balance == 0,
        custody.vault.balance != 0 ==> custody.close_refusal(caller) == Some(
            LockBoxError::InsufficientBalance,
        ),
        other.close_refusal(caller) == custody.close_refusal(caller),
{
}

/// Deactivation is final. No operation succeeds on a deactivated lockbox
/// but its closure, and the owner is told that the lockbox is inactive.
pub proof fn lemma_deactivated_is_terminal(custody: Custody, caller: Identity, amount: u64)
    requires
        !custody.lockbox.active,
    ensures
        custody.after_deposit(caller, amount) is Err,
        custody.after_withdraw(caller, amount) is Err,
        custody.after_emergency_withdraw(caller) is Err,
        caller == custody.lockbox.owner ==> {
            &&& custody.after_deposit(caller, amount) == Err::<Custody, LockBoxError>(
                LockBoxError::InactiveLockBox,
            )
            &&& custody.after_withdraw(caller, amount) == Err::<Custody, LockBoxError>(
                LockBoxError::InactiveLockBox,
            )
            &&& custody.after_emergency_withdraw(caller) == Err::<Custody, LockBoxError>(
                LockBoxError::InactiveLockBox,
            )
        },
{
}

/// No operation changes the owner, the target or the vault reference of a
/// record, none reactivates a lockbox, and only the owner gets anything done.
pub proof fn lemma_terms_are_fixed(custody: Custody, caller: Identity, amount: u64)
    ensures
        custody.after_deposit(caller, amount) matches Ok(next) ==> {
            &&& next.lockbox.same_terms(&custody.lockbox)
            &&& next.lockbox.active
            &&& caller == custody.lockbox.owner
        },
        custody.after_withdraw(caller, amount) matches Ok(next) ==> {
            &&& next.lockbox.same_terms(&custody.lockbox)
            &&& next.lockbox.active
            &&& caller == custody.lockbox.owner
        },
        custody.after_emergency_withdraw(caller) matches Ok(next) ==> {
            &&& next.lockbox.same_terms(&custody.lockbox)
            &&& !next.lockbox.active
            &&& next.vault.balance == 0
            &&& caller == custody.lockbox.owner
        },
        custody.close_refusal(caller) is None ==> caller == custody.lockbox.owner,
{
}

/// Bookkeeping and vault stay in step: every operation keeps a pair in
/// step, and on such a pair a deposit overflows exactly when the bookkeeping
/// total would.
pub proof fn lemma_bookkeeping_bounds_the_vault(custody: Custody, caller: Identity, amount: u64)
    requires
        custody.in_step(),
    ensures
        custody.after_deposit(caller, amount) matches Ok(next) ==> next.in_step(),
        custody.after_withdraw(caller, amount) matches Ok(next) ==> next.in_step(),
        custody.after_emergency_withdraw(caller) matches Ok(next) ==> next.in_step(),
        custody.after_deposit(caller, amount) == Err::<Custody, LockBoxError>(
            LockBoxError::ArithmeticOverflow,
        ) <==> {
            &&& caller == custody.lockbox.owner
            &&& custody.lockbox.active
            &&& amount > 0
            &&& custody.lockbox.deposited_amount + amount > u64::MAX
        },
{
}

/// A pair that has just been created is in step: both counters are zero.
pub proof fn lemma_fresh_is_in_step(owner: Identity, target_amount: u64, reference: Derivation)
    ensures
        (Custody {
            lockbox: LockBox::fresh(owner, target_amount, reference),
            vault: Vault { balance: 0 },
        }).in_step(),
{
}

} // verus!
