//! What the host is told to carry out once an operation has been accepted.

use vstd::prelude::*;

verus! {

/// The one action that goes with an accepted operation. The library decides
/// it and accounts for it in the custody pair; moving the value and
/// allocating or freeing storage is the host's part.
#[derive(Clone, Copy, Debug, PartialEq, Eq, Structural)]
pub enum Effect {
    /// Allocate the record and bring its empty vault into existence.
    Create,
    /// Move `amount` from the owner into the vault.
    MoveIntoVault { amount: u64 },
    /// Move `amount` from the vault to the owner.
    MoveToOwner { amount: u64 },
    /// Destroy the record and return its storage allowance to the owner.
    Reclaim,
}

} // verus!
