//! The typed failures of the lockbox operations.

use vstd::prelude::*;

verus! {

/// Why an operation was refused. A refused operation changes nothing.
#[derive(Clone, Copy, Debug, PartialEq, Eq, Structural)]
pub enum LockBoxError {
    /// The caller is not the owner of the record, or the accounts named are
    /// not the ones derived for the caller, or they hold no record.
    Unauthorized,
    /// The lockbox has been deactivated by an emergency withdrawal.
    InactiveLockBox,
    /// The bookkeeping total is still below the target.
    TargetNotReached,
    /// The vault holds less than was asked for, or is not empty on close.
    InsufficientBalance,
    /// The amount is zero.
    InvalidAmount,
    /// The target is zero.
    InvalidTarget,
    /// Adding the amount would exceed what a 64-bit counter can hold.
    ArithmeticOverflow,
    /// A lockbox already exists at the caller's derived address.
    AlreadyInitialized,
}

} // verus!
