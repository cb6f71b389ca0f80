use lock_box::effects::Effect;
use lock_box::errors::LockBoxError;
use lock_box::identity::Identity;
use lock_box::instructions::close_lockbox::{close_lockbox, CloseLockBox};
use lock_box::instructions::deposit::{deposit, Deposit};
use lock_box::instructions::emergency_withdraw::{emergency_withdraw, EmergencyWithdraw};
use lock_box::instructions::initialize_lockbox::{initialize_lockbox, InitializeLockBox};
use lock_box::instructions::withdraw::{withdraw, Withdraw};
use lock_box::states::{Custody, Derivation, LockBox, Vault};

fn alice() -> Identity {
    Identity::new([0xa1; 32])
}

fn bob() -> Identity {
    Identity::new([0xb0; 32])
}

fn reference() -> Derivation {
    Derivation { address: Identity::new([0x55; 32]), bump: 254 }
}

fn lockbox(target_amount: u64, deposited_amount: u64, active: bool) -> LockBox {
    LockBox { owner: alice(), target_amount, deposited_amount, active, vault_reference: reference() }
}

#[test]
fn identities_compare_by_their_bytes() {
    let mut bytes = [9u8; 32];
    let a = Identity::new(bytes);
    assert!(a == Identity::new([9u8; 32]));
    assert_eq!(a.to_bytes(), bytes);
    bytes[31] = 8;
    assert!(a != Identity::new(bytes));
    bytes[31] = 9;
    bytes[0] = 0;
    assert!(a != Identity::new(bytes));
}

#[test]
fn target_is_reached_at_equality() {
    assert!(!lockbox(10, 9, true).is_target_reached());
    assert!(lockbox(10, 10, true).is_target_reached());
    assert!(lockbox(10, 11, true).is_target_reached());
}

#[test]
fn initialize_handler_fills_the_record() {
    let mut ctx = InitializeLockBox { custody: None, owner: alice(), vault_reference: reference() };
    assert_eq!(initialize_lockbox(&mut ctx, 1000), Ok(Effect::Create));
    assert_eq!(
        ctx.custody,
        Some(Custody { lockbox: lockbox(1000, 0, true), vault: Vault { balance: 0 } })
    );
    assert_eq!(ctx.owner, alice());
    assert_eq!(ctx.vault_reference, reference());
}

#[test]
fn initialize_handler_refusals() {
    let existing = Custody { lockbox: lockbox(5, 1, false), vault: Vault { balance: 1 } };
    let mut taken = InitializeLockBox { custody: Some(existing), owner: alice(), vault_reference: reference() };
    assert_eq!(initialize_lockbox(&mut taken, 1000), Err(LockBoxError::AlreadyInitialized));
    assert_eq!(initialize_lockbox(&mut taken, 0), Err(LockBoxError::AlreadyInitialized));
    assert_eq!(taken.custody, Some(existing));
    let mut vacant = InitializeLockBox { custody: None, owner: alice(), vault_reference: reference() };
    assert_eq!(initialize_lockbox(&mut vacant, 0), Err(LockBoxError::InvalidTarget));
    assert_eq!(vacant.custody, None);
    assert_eq!(initialize_lockbox(&mut vacant, 1), Ok(Effect::Create));
}

#[test]
fn deposit_handler_adds_to_both_counters() {
    let mut ctx = Deposit { lockbox: lockbox(1000, 400, true), owner: alice(), vault: Vault { balance: 150 } };
    assert_eq!(deposit(&mut ctx, 600), Ok(Effect::MoveIntoVault { amount: 600 }));
    assert_eq!(ctx.lockbox, lockbox(1000, 1000, true));
    assert_eq!(ctx.vault.balance, 750);
    assert_eq!(deposit(&mut ctx, u64::MAX - 1000), Ok(Effect::MoveIntoVault { amount: u64::MAX - 1000 }));
    assert_eq!(ctx.lockbox.deposited_amount, u64::MAX);
}

#[test]
fn deposit_handler_refusals_in_order() {
    let start = Deposit { lockbox: lockbox(1000, u64::MAX, false), owner: bob(), vault: Vault { balance: 0 } };
    let mut ctx = start;
    assert_eq!(deposit(&mut ctx, 0), Err(LockBoxError::Unauthorized));
    ctx.owner = alice();
    assert_eq!(deposit(&mut ctx, 0), Err(LockBoxError::InactiveLockBox));
    ctx.lockbox.active = true;
    assert_eq!(deposit(&mut ctx, 0), Err(LockBoxError::InvalidAmount));
    assert_eq!(deposit(&mut ctx, 1), Err(LockBoxError::ArithmeticOverflow));
    ctx.lockbox.deposited_amount = 0;
    ctx.vault.balance = u64::MAX - 4;
    let before = ctx;
    assert_eq!(deposit(&mut ctx, 5), Err(LockBoxError::ArithmeticOverflow));
    assert_eq!(ctx, before);
    assert_eq!(deposit(&mut ctx, 4), Ok(Effect::MoveIntoVault { amount: 4 }));
    assert_eq!(ctx.vault.balance, u64::MAX);
    assert_eq!(ctx.lockbox.deposited_amount, 4);
}

#[test]
fn withdraw_handler_takes_from_the_vault_only() {
    let mut ctx = Withdraw { lockbox: lockbox(1000, 1000, true), owner: alice(), vault: Vault { balance: 1000 } };
    assert_eq!(withdraw(&mut ctx, 250), Ok(Effect::MoveToOwner { amount: 250 }));
    assert_eq!(ctx.vault.balance, 750);
    assert_eq!(ctx.lockbox, lockbox(1000, 1000, true));
    assert_eq!(withdraw(&mut ctx, 750), Ok(Effect::MoveToOwner { amount: 750 }));
    assert_eq!(ctx.vault.balance, 0);
}

#[test]
fn withdraw_handler_refusals_in_order() {
    let mut ctx = Withdraw { lockbox: lockbox(1000, 999, false), owner: bob(), vault: Vault { balance: 10 } };
    assert_eq!(withdraw(&mut ctx, 0), Err(LockBoxError::Unauthorized));
    ctx.owner = alice();
    assert_eq!(withdraw(&mut ctx, 0), Err(LockBoxError::InactiveLockBox));
    ctx.lockbox.active = true;
    assert_eq!(withdraw(&mut ctx, 0), Err(LockBoxError::InvalidAmount));
    assert_eq!(withdraw(&mut ctx, 11), Err(LockBoxError::TargetNotReached));
    assert_eq!(withdraw(&mut ctx, 10), Err(LockBoxError::TargetNotReached));
    ctx.lockbox.deposited_amount = 1000;
    let before = ctx;
    assert_eq!(withdraw(&mut ctx, 11), Err(LockBoxError::InsufficientBalance));
    assert_eq!(ctx, before);
    assert_eq!(withdraw(&mut ctx, 10), Ok(Effect::MoveToOwner { amount: 10 }));
}

#[test]
fn emergency_handler_resets_and_deactivates() {
    let mut ctx = EmergencyWithdraw { lockbox: lockbox(1000, 300, true), owner: alice(), vault: Vault { balance: 345 } };
    assert_eq!(emergency_withdraw(&mut ctx), Ok(Effect::MoveToOwner { amount: 345 }));
    assert_eq!(ctx.lockbox, lockbox(1000, 0, false));
    assert_eq!(ctx.vault.balance, 0);
    assert_eq!(emergency_withdraw(&mut ctx), Err(LockBoxError::InactiveLockBox));
    ctx.vault.balance = 9;
    assert_eq!(emergency_withdraw(&mut ctx), Err(LockBoxError::InactiveLockBox));
    assert_eq!(ctx.vault.balance, 9);
}

#[test]
fn emergency_handler_refuses_strangers() {
    let mut ctx = EmergencyWithdraw { lockbox: lockbox(1000, 300, true), owner: bob(), vault: Vault { balance: 300 } };
    let before = ctx;
    assert_eq!(emergency_withdraw(&mut ctx), Err(LockBoxError::Unauthorized));
    assert_eq!(ctx, before);
}

#[test]
fn close_handler_looks_at_the_live_balance_only() {
    let empty = Vault { balance: 0 };
    assert_eq!(close_lockbox(&CloseLockBox { lockbox: lockbox(10, 10, true), owner: alice(), vault: empty }), Ok(Effect::Reclaim));
    assert_eq!(close_lockbox(&CloseLockBox { lockbox: lockbox(10, 0, false), owner: alice(), vault: empty }), Ok(Effect::Reclaim));
    let one = Vault { balance: 1 };
    assert_eq!(
        close_lockbox(&CloseLockBox { lockbox: lockbox(10, 0, false), owner: alice(), vault: one }),
        Err(LockBoxError::InsufficientBalance)
    );
    assert_eq!(
        close_lockbox(&CloseLockBox { lockbox: lockbox(10, 0, true), owner: alice(), vault: Vault { balance: u64::MAX } }),
        Err(LockBoxError::InsufficientBalance)
    );
    assert_eq!(
        close_lockbox(&CloseLockBox { lockbox: lockbox(10, 10, true), owner: bob(), vault: empty }),
        Err(LockBoxError::Unauthorized)
    );
}
