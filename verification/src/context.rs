//! What accompanies every call: who calls, and which two accounts are named.

use vstd::prelude::*;
use crate::derivation::{found_view, Located};
use crate::errors::LockBoxError;
use crate::identity::Identity;
use crate::states::Custody;

verus! {

/// The caller of an operation and the accounts it names.
#[derive(Clone, Copy, Debug, PartialEq, Eq)]
pub struct Invocation {
    /// The program under which addresses are derived.
    pub program_id: Identity,
    /// The identity that the host has authenticated.
    pub caller: Identity,
    /// The address named as the lockbox.
    pub lockbox: Identity,
    /// The address named as the vault.
    pub vault: Identity,
}

impl Invocation {
    /// The two addresses named are the ones derived for the caller.
    pub open spec fn addressed_to(
        &self,
        lockbox: Option<(Seq<u8>, u8)>,
        vault: Option<(Seq<u8>, u8)>,
    ) -> bool {
        &&& lockbox matches Some(derived_lockbox)
        &&& vault matches Some(derived_vault)
        &&& derived_lockbox.0 == self.lockbox@
        &&& derived_vault.0 == self.vault@
    }

    /// The addresses named are the derived ones, a record exists, and the
    /// record refers to the derived vault.
    pub open spec fn binds(
        &self,
        lockbox: Option<(Seq<u8>, u8)>,
        vault: Option<(Seq<u8>, u8)>,
        slot: Option<Custody>,
    ) -> bool {
        &&& self.addressed_to(lockbox, vault)
        &&& slot matches Some(custody)
        &&& Some(custody.lockbox.vault_reference@) == vault
    }

    /// Whether the two addresses named are the ones in `located`.
    pub fn is_addressed_to(&self, located: &Located) -> (addressed: bool)
        ensures
            addressed == self.addressed_to(found_view(located.lockbox), found_view(located.vault)),
    {
        match (&located.lockbox, &located.vault) {
            (Some(lockbox), Some(vault)) => {
                proof {
                    Identity::lemma_view_determines(lockbox.address, self.lockbox);
                    Identity::lemma_view_determines(vault.address, self.vault);
                }
                lockbox.address == self.lockbox && vault.address == self.vault
            },
            _ => false,
        }
    }

    /// Hands out the custody pair behind the named accounts, provided the
    /// accounts are the derived ones and hold a record that refers to the
    /// derived vault. Anything else is an authorization failure.
    pub fn load(&self, located: &Located, slot: &Option<Custody>) -> (loaded: Result<
        Custody,
        LockBoxError,
    >)
        ensures
            match loaded {
                Ok(custody) => {
                    &&& self.binds(found_view(located.lockbox), found_view(located.vault), *slot)
                    &&& *slot == Some(custody)
                },
                Err(e) => {
                    &&& !self.binds(found_view(located.lockbox), found_view(located.vault), *slot)
                    &&& e == LockBoxError::Unauthorized
                },
            },
    {
        if !self.is_addressed_to(located) {
            return Err(LockBoxError::Unauthorized);
        }
        match (slot, &located.vault) {
            (Some(custody), Some(vault)) => {
                proof {
                    Identity::lemma_view_determines(
                        custody.lockbox.vault_reference.address,
                        vault.address,
                    );
                }
                if custody.lockbox.vault_reference.address == vault.address
                    && custody.lockbox.vault_reference.bump == vault.bump {
                    Ok(*custody)
                } else {
                    Err(LockBoxError::Unauthorized)
                }
            },
            _ => Err(LockBoxError::Unauthorized),
        }
    }
}

} // verus!
