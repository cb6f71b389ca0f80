//! Initialize: a lockbox and its empty vault come into existence together.

use vstd::prelude::*;
use crate::effects::Effect;
use crate::errors::LockBoxError;
use crate::identity::Identity;
use crate::states::{Custody, Derivation, LockBox, Vault};

verus! {

/// The accounts of an initialization.
#[derive(Clone, Copy, Debug, PartialEq, Eq)]
pub struct InitializeLockBox {
    /// What is held at the caller's derived address, if anything.
    pub custody: Option<Custody>,
    /// The authenticated caller, who becomes the owner.
    pub owner: Identity,
    /// Where the vault of the new lockbox lives.
    pub vault_reference: Derivation,
}

impl InitializeLockBox {
    /// Why the initialization is refused, if it is. The checks are made in
    /// this order and the first that fails decides.
    pub open spec fn refusal(&self, target_amount: u64) -> Option<LockBoxError> {
        if self.custody is Some {
            Some(LockBoxError::AlreadyInitialized)
        } else if target_amount == 0 {
            Some(LockBoxError::InvalidTarget)
        } else {
            None
        }
    }

    /// The accounts after creation: an active record with nothing deposited,
    /// and an empty vault.
    pub open spec fn after(&self, target_amount: u64) -> InitializeLockBox {
        InitializeLockBox {
            custody: Some(
                Custody {
                    lockbox: LockBox::fresh(self.owner, target_amount, self.vault_reference),
                    vault: Vault { balance: 0 },
                },
            ),
            owner: self.owner,
            vault_reference: self.vault_reference,
        }
    }
}

/// Creates the lockbox of the caller with the goal `target_amount`, and its
/// vault.
pub fn initialize_lockbox(ctx: &mut InitializeLockBox, target_amount: u64) -> (result: Result<
    Effect,
    LockBoxError,
>)
    ensures
        match old(ctx).refusal(target_amount) {
            Some(e) => result == Err::<Effect, LockBoxError>(e) && *final(ctx) == *old(ctx),
            None => {
                &&& result == Ok::<Effect, LockBoxError>(Effect::Create)
                &&& *final(ctx) == old(ctx).after(target_amount)
            },
        },
{
    if ctx.custody.is_some() {
        return Err(LockBoxError::AlreadyInitialized);
    }
    if target_amount == 0 {
        return Err(LockBoxError::InvalidTarget);
    }
    ctx.custody = Some(
        Custody {
            lockbox: LockBox {
                owner: ctx.owner,
                target_amount,
                deposited_amount: 0,
                active: true,
                vault_reference: ctx.vault_reference,
            },
            vault: Vault { balance: 0 },
        },
    );
    Ok(Effect::Create)
}

} // verus!
