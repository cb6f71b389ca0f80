//! The five operations on what the ledger holds, given the addresses that
//! were derived for the caller.

use vstd::prelude::*;
use crate::context::Invocation;
use crate::derivation::{found_view, Located};
use crate::effects::Effect;
use crate::errors::LockBoxError;
use crate::instructions;
use crate::instructions::close_lockbox::CloseLockBox;
use crate::instructions::deposit::Deposit;
use crate::instructions::emergency_withdraw::EmergencyWithdraw;
use crate::instructions::initialize_lockbox::InitializeLockBox;
use crate::instructions::withdraw::Withdraw;
use crate::states::{Custody, LockBox, Vault};

verus! {

/// Why an initialization with the goal `target_amount` is refused, if it is,
/// where `lockbox` and `vault` are the addresses derived for the caller. The
/// checks are made in this order and the first that fails decides.
pub open spec fn initialize_refusal(
    inv: Invocation,
    lockbox: Option<(Seq<u8>, u8)>,
    vault: Option<(Seq<u8>, u8)>,
    slot: Option<Custody>,
    target_amount: u64,
) -> Option<LockBoxError> {
    if !inv.addressed_to(lockbox, vault) {
        Some(LockBoxError::Unauthorized)
    } else if slot is Some {
        Some(LockBoxError::AlreadyInitialized)
    } else if target_amount == 0 {
        Some(LockBoxError::InvalidTarget)
    } else {
        None
    }
}

/// What a deposit comes to, where `lockbox` and `vault` are the addresses
/// derived for the caller: the result, and what the ledger holds afterwards.
pub open spec fn deposit_outcome(
    inv: Invocation,
    lockbox: Option<(Seq<u8>, u8)>,
    vault: Option<(Seq<u8>, u8)>,
    slot: Option<Custody>,
    amount: u64,
) -> (Result<Effect, LockBoxError>, Option<Custody>) {
    if !inv.binds(lockbox, vault, slot) {
        (Err(LockBoxError::Unauthorized), slot)
    } else {
        match slot->0.after_deposit(inv.caller, amount) {
            Ok(next) => (Ok(Effect::MoveIntoVault { amount }), Some(next)),
            Err(e) => (Err(e), slot),
        }
    }
}

/// What a withdrawal comes to: the result, and what the ledger holds
/// afterwards.
pub open spec fn withdraw_outcome(
    inv: Invocation,
    lockbox: Option<(Seq<u8>, u8)>,
    vault: Option<(Seq<u8>, u8)>,
    slot: Option<Custody>,
    amount: u64,
) -> (Result<Effect, LockBoxError>, Option<Custody>) {
    if !inv.binds(lockbox, vault, slot) {
        (Err(LockBoxError::Unauthorized), slot)
    } else {
        match slot->0.after_withdraw(inv.caller, amount) {
            Ok(next) => (Ok(Effect::MoveToOwner { amount }), Some(next)),
            Err(e) => (Err(e), slot),
        }
    }
}

/// What an emergency withdrawal comes to: the result, which on success
/// releases the whole balance of the vault, and what the ledger holds
/// afterwards.
pub open spec fn emergency_withdraw_outcome(
    inv: Invocation,
    lockbox: Option<(Seq<u8>, u8)>,
    vault: Option<(Seq<u8>, u8)>,
    slot: Option<Custody>,
) -> (Result<Effect, LockBoxError>, Option<Custody>) {
    if !inv.binds(lockbox, vault, slot) {
        (Err(LockBoxError::Unauthorized), slot)
    } else {
        match slot->0.after_emergency_withdraw(inv.caller) {
            Ok(next) => (Ok(Effect::MoveToOwner { amount: slot->0.vault.balance }), Some(next)),
            Err(e) => (Err(e), slot),
        }
    }
}

/// What a closure comes to: the result, and what the ledger holds
/// afterwards, which on success is nothing.
pub open spec fn close_outcome(
    inv: Invocation,
    lockbox: Option<(Seq<u8>, u8)>,
    vault: Option<(Seq<u8>, u8)>,
    slot: Option<Custody>,
) -> (Result<Effect, LockBoxError>, Option<Custody>) {
    if !inv.binds(lockbox, vault, slot) {
        (Err(LockBoxError::Unauthorized), slot)
    } else {
        match slot->0.close_refusal(inv.caller) {
            None => (Ok(Effect::Reclaim), None),
            Some(e) => (Err(e), slot),
        }
    }
}

/// Creates the lockbox of the caller and its empty vault at the addresses in
/// `located`, which the record keeps as its reference to the vault.
pub fn initialize_lockbox_at(
    inv: &Invocation,
    located: &Located,
    slot: &mut Option<Custody>,
    target_amount: u64,
) -> (result: Result<Effect, LockBoxError>)
    ensures
        *old(slot) is Some ==> result is Err,
        match initialize_refusal(
            *inv,
            found_view(located.lockbox),
            found_view(located.vault),
            *old(slot),
            target_amount,
        ) {
            Some(e) => result == Err::<Effect, LockBoxError>(e) && *final(slot) == *old(slot),
            None => {
                &&& result == Ok::<Effect, LockBoxError>(Effect::Create)
                &&& located.vault matches Some(reference)
                &&& *final(slot) == Some(
                    Custody {
                        lockbox: LockBox::fresh(inv.caller, target_amount, reference),
                        vault: Vault { balance: 0 },
                    },
                )
            },
        },
{
    if !inv.is_addressed_to(located) {
        return Err(LockBoxError::Unauthorized);
    }
    let vault_reference = match located.vault {
        Some(derivation) => derivation,
        None => {
            return Err(LockBoxError::Unauthorized);
        },
    };
    let mut ctx = InitializeLockBox { custody: *slot, owner: inv.caller, vault_reference };
    let effect = instructions::initialize_lockbox::initialize_lockbox(&mut ctx, target_amount)?;
    *slot = ctx.custody;
    Ok(effect)
}

/// Deposits `amount` into the vault behind the accounts named, provided
/// they are the ones in `located` and hold a record.
pub fn deposit_at(
    inv: &Invocation,
    located: &Located,
    slot: &mut Option<Custody>,
    amount: u64,
) -> (result: Result<Effect, LockBoxError>)
    ensures
        *old(slot) is None ==> result is Err,
        (result, *final(slot)) == deposit_outcome(
            *inv,
            found_view(located.lockbox),
            found_view(located.vault),
            *old(slot),
            amount,
        ),
{
    let custody = inv.load(located, slot)?;
    let mut ctx = Deposit { lockbox: custody.lockbox, owner: inv.caller, vault: custody.vault };
    let effect = instructions::deposit::deposit(&mut ctx, amount)?;
    *slot = Some(Custody { lockbox: ctx.lockbox, vault: ctx.vault });
    Ok(effect)
}

/// Withdraws `amount` from the vault behind the accounts named, provided
/// they are the ones in `located` and hold a record.
pub fn withdraw_at(
    inv: &Invocation,
    located: &Located,
    slot: &mut Option<Custody>,
    amount: u64,
) -> (result: Result<Effect, LockBoxError>)
    ensures
        *old(slot) is None ==> result is Err,
        (result, *final(slot)) == withdraw_outcome(
            *inv,
            found_view(located.lockbox),
            found_view(located.vault),
            *old(slot),
            amount,
        ),
{
    let custody = inv.load(located, slot)?;
    let mut ctx = Withdraw { lockbox: custody.lockbox, owner: inv.caller, vault: custody.vault };
    let effect = instructions::withdraw::withdraw(&mut ctx, amount)?;
    *slot = Some(Custody { lockbox: ctx.lockbox, vault: ctx.vault });
    Ok(effect)
}

/// Empties the vault behind the accounts named and deactivates the lockbox,
/// provided they are the ones in `located` and hold a record.
pub fn emergency_withdraw_at(inv: &Invocation, located: &Located, slot: &mut Option<Custody>) -> (result:
    Result<Effect, LockBoxError>)
    ensures
        *old(slot) is None ==> result is Err,
        (result, *final(slot)) == emergency_withdraw_outcome(
            *inv,
            found_view(located.lockbox),
            found_view(located.vault),
            *old(slot),
        ),
{
    let custody = inv.load(located, slot)?;
    let mut ctx = EmergencyWithdraw {
        lockbox: custody.lockbox,
        owner: inv.caller,
        vault: custody.vault,
    };
    let effect = instructions::emergency_withdraw::emergency_withdraw(&mut ctx)?;
    *slot = Some(Custody { lockbox: ctx.lockbox, vault: ctx.vault });
    Ok(effect)
}

/// Removes the record behind the accounts named, provided they are the ones
/// in `located`, hold a record, and the vault is empty.
pub fn close_lockbox_at(inv: &Invocation, located: &Located, slot: &mut Option<Custody>) -> (result:
    Result<Effect, LockBoxError>)
    ensures
        *old(slot) is None ==> result is Err,
        (result, *final(slot)) == close_outcome(
            *inv,
            found_view(located.lockbox),
            found_view(located.vault),
            *old(slot),
        ),
{
    let custody = inv.load(located, slot)?;
    let ctx = CloseLockBox { lockbox: custody.lockbox, owner: inv.caller, vault: custody.vault };
    let effect = instructions::close_lockbox::close_lockbox(&ctx)?;
    *slot = None;
    Ok(effect)
}

} // verus!
