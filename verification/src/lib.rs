//! A goal-based custody vault: value is deposited toward a declared target and
//! released once the target is met, or through a one-time emergency exit.
//!
//! The entry points below take the caller, the two accounts it names, and
//! what the ledger holds for them. Each derives the addresses that belong to
//! the caller, refuses accounts that are not those, and then applies one of
//! the five operations to the custody pair.

use vstd::prelude::*;
use crate::context::Invocation;
use crate::derivation::{locate, lockbox_address, vault_address};
use crate::effects::Effect;
use crate::errors::LockBoxError;
use crate::program::{
    close_lockbox_at, close_outcome, deposit_at, deposit_outcome, emergency_withdraw_at,
    emergency_withdraw_outcome, initialize_lockbox_at, initialize_refusal, withdraw_at,
    withdraw_outcome,
};
use crate::states::{Custody, LockBox};

pub mod context;
pub mod derivation;
pub mod effects;
pub mod errors;
pub mod identity;
pub mod instructions;
pub mod lifecycle;
pub mod program;
pub mod states;
pub mod transitions;

verus! {

/// Initialize a new lockbox with a target amount, together with its empty
/// vault. Fails where a record already exists at the caller's address.
pub fn initialize_lockbox(inv: &Invocation, slot: &mut Option<Custody>, target_amount: u64) -> (result:
    Result<Effect, LockBoxError>)
    ensures
        *old(slot) is Some ==> result is Err,
        match initialize_refusal(
            *inv,
            lockbox_address(inv.program_id@, inv.caller@),
            vault_address(inv.program_id@, inv.caller@),
            *old(slot),
            target_amount,
        ) {
            Some(e) => result == Err::<Effect, LockBoxError>(e) && *final(slot) == *old(slot),
            None => {
                &&& result == Ok::<Effect, LockBoxError>(Effect::Create)
                &&& *final(slot) matches Some(created)
                &&& created.vault.balance == 0
                &&& created.lockbox == LockBox::fresh(
                    inv.caller,
                    target_amount,
                    created.lockbox.vault_reference,
                )
                &&& Some(created.lockbox.vault_reference@) == vault_address(
                    inv.program_id@,
                    inv.caller@,
                )
            },
        },
{
    let located = locate(&inv.program_id, &inv.caller);
    initialize_lockbox_at(inv, &located, slot, target_amount)
}

/// Deposit value into the vault of the caller's lockbox. Where the accounts
/// named are not the caller's own, or hold no record, the call is refused as
/// unauthorized; so it is in the three operations that follow.
pub fn deposit(inv: &Invocation, slot: &mut Option<Custody>, amount: u64) -> (result: Result<
    Effect,
    LockBoxError,
>)
    ensures
        *old(slot) is None ==> result is Err,
        (result, *final(slot)) == deposit_outcome(
            *inv,
            lockbox_address(inv.program_id@, inv.caller@),
            vault_address(inv.program_id@, inv.caller@),
            *old(slot),
            amount,
        ),
{
    let located = locate(&inv.program_id, &inv.caller);
    deposit_at(inv, &located, slot, amount)
}

/// Withdraw value from the vault of the caller's lockbox, which is possible
/// only once the target is reached.
pub fn withdraw(inv: &Invocation, slot: &mut Option<Custody>, amount: u64) -> (result: Result<
    Effect,
    LockBoxError,
>)
    ensures
        *old(slot) is None ==> result is Err,
        (result, *final(slot)) == withdraw_outcome(
            *inv,
            lockbox_address(inv.program_id@, inv.caller@),
            vault_address(inv.program_id@, inv.caller@),
            *old(slot),
            amount,
        ),
{
    let located = locate(&inv.program_id, &inv.caller);
    withdraw_at(inv, &located, slot, amount)
}

/// Emergency withdrawal: releases everything in the vault to the owner and
/// deactivates the lockbox permanently.
pub fn emergency_withdraw(inv: &Invocation, slot: &mut Option<Custody>) -> (result: Result<
    Effect,
    LockBoxError,
>)
    ensures
        *old(slot) is None ==> result is Err,
        (result, *final(slot)) == emergency_withdraw_outcome(
            *inv,
            lockbox_address(inv.program_id@, inv.caller@),
            vault_address(inv.program_id@, inv.caller@),
            *old(slot),
        ),
{
    let located = locate(&inv.program_id, &inv.caller);
    emergency_withdraw_at(inv, &located, slot)
}

/// Close the caller's lockbox and give its storage back, which is possible
/// only while the vault is empty. Afterwards the ledger holds no record.
pub fn close_lockbox(inv: &Invocation, slot: &mut Option<Custody>) -> (result: Result<
    Effect,
    LockBoxError,
>)
    ensures
        *old(slot) is None ==> result is Err,
        (result, *final(slot)) == close_outcome(
            *inv,
            lockbox_address(inv.program_id@, inv.caller@),
            vault_address(inv.program_id@, inv.caller@),
            *old(slot),
        ),
{
    let located = locate(&inv.program_id, &inv.caller);
    close_lockbox_at(inv, &located, slot)
}

} // verus!
