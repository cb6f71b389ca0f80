//! The two persistent entities: the lockbox record and its vault.

use vstd::prelude::*;
use crate::identity::Identity;

verus! {

/// Domain tag under which a lockbox address is derived from its owner.
pub const LOCKBOX_SEED: [u8; 7] = [0x6c, 0x6f, 0x63, 0x6b, 0x62, 0x6f, 0x78];

/// Domain tag under which a vault address is derived from its lockbox.
pub const VAULT_SEED: [u8; 5] = [0x76, 0x61, 0x75, 0x6c, 0x74];

/// A derived address together with the bump that makes the derivation
/// canonical.
#[derive(Clone, Copy, Debug, PartialEq, Eq)]
pub struct Derivation {
    pub address: Identity,
    pub bump: u8,
}

impl View for Derivation {
    type V = (Seq<u8>, u8);

    open spec fn view(&self) -> (Seq<u8>, u8) {
        (self.address@, self.bump)
    }
}

/// The custody record: who owns it, the goal, and the progress toward it.
#[derive(Clone, Copy, Debug, PartialEq, Eq)]
pub struct LockBox {
    /// The controlling party. Never changes.
    pub owner: Identity,
    /// The goal declared at creation. Never changes.
    pub target_amount: u64,
    /// Running total of all successful deposits. Withdrawals leave it as it
    /// is; an emergency withdrawal resets it to zero.
    pub deposited_amount: u64,
    /// True until an emergency withdrawal; false forever after.
    pub active: bool,
    /// Where the companion vault lives. Never changes.
    pub vault_reference: Derivation,
}

/// The account that holds the deposited value. Its balance is the
/// authoritative amount in custody.
#[derive(Clone, Copy, Debug, PartialEq, Eq)]
pub struct Vault {
    pub balance: u64,
}

/// A lockbox together with its vault. The two are created together and
/// destroyed together.
#[derive(Clone, Copy, Debug, PartialEq, Eq)]
pub struct Custody {
    pub lockbox: LockBox,
    pub vault: Vault,
}

impl Custody {
    /// The vault holds no more than the record says was deposited. This is
    /// so of every pair that only the operations here have touched; value
    /// that reaches the vault by another road breaks it, which is why the
    /// balance of the vault, and not the record, is what counts.
    pub open spec fn in_step(&self) -> bool {
        self.vault.balance <= self.lockbox.deposited_amount
    }
}

impl LockBox {
    /// The bookkeeping total has reached the target.
    pub open spec fn target_reached(&self) -> bool {
        self.deposited_amount >= self.target_amount
    }

    /// The record as it stands right after creation.
    pub open spec fn fresh(owner: Identity, target_amount: u64, vault_reference: Derivation) -> LockBox {
        LockBox { owner, target_amount, deposited_amount: 0, active: true, vault_reference }
    }

    /// What no operation ever changes once the record exists.
    pub open spec fn same_terms(&self, other: &LockBox) -> bool {
        &&& self.owner == other.owner
        &&& self.target_amount == other.target_amount
        &&& self.vault_reference == other.vault_reference
    }

    /// Whether the bookkeeping total has reached the target.
    pub fn is_target_reached(&self) -> (reached: bool)
        ensures
            reached == self.target_reached(),
    {
        self.deposited_amount >= self.target_amount
    }
}

} // verus!
