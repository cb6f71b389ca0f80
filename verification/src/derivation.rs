//! Deterministic addresses: where the lockbox of an owner lives, and where
//! the vault of a lockbox lives.

use vstd::prelude::*;
use anchor_lang::prelude::Pubkey;
use crate::identity::Identity;
use crate::states::{Derivation, LOCKBOX_SEED, VAULT_SEED};

verus! {

/// The address that the ledger derives from `seeds` for the program
/// `program`, with the bump that makes it canonical; `None` where the seeds
/// admit no such address.
pub uninterp spec fn program_address(seeds: Seq<Seq<u8>>, program: Seq<u8>) -> Option<(Seq<u8>, u8)>;

/// A derivation, if there is one, as plain bytes and bump.
pub open spec fn found_view(found: Option<Derivation>) -> Option<(Seq<u8>, u8)> {
    match found {
        Some(derivation) => Some(derivation@),
        None => None,
    }
}

/// Calls `Pubkey::try_find_program_address` on the two seeds `tag` and the
/// bytes of `parent`. Nothing is proved of it: the contract only gives the
/// outcome its name, which rests on the search being a function of the seeds
/// and the program alone.
#[verifier::external_body]
fn try_find_program_address(tag: &[u8], parent: &Identity, program_id: &Identity) -> (found: Option<
    Derivation,
>)
    ensures
        found_view(found) == program_address(seq![tag@, parent@], program_id@),
{
    let program = Pubkey::new_from_array(program_id.bytes);
    match Pubkey::try_find_program_address(&[tag, &parent.bytes], &program) {
        Some((address, bump)) => Some(
            Derivation { address: Identity { bytes: address.to_bytes() }, bump },
        ),
        None => None,
    }
}

/// Where the lockbox of `owner` lives under `program`.
pub open spec fn lockbox_address(program: Seq<u8>, owner: Seq<u8>) -> Option<(Seq<u8>, u8)> {
    program_address(seq![LOCKBOX_SEED@, owner], program)
}

/// Where the vault of the lockbox of `owner` lives under `program`: it is
/// derived from the address of the lockbox.
pub open spec fn vault_address(program: Seq<u8>, owner: Seq<u8>) -> Option<(Seq<u8>, u8)> {
    match lockbox_address(program, owner) {
        Some((lockbox, _)) => program_address(seq![VAULT_SEED@, lockbox], program),
        None => None,
    }
}

/// The derived addresses of one owner's lockbox and vault.
#[derive(Clone, Copy, Debug, PartialEq, Eq)]
pub struct Located {
    pub lockbox: Option<Derivation>,
    pub vault: Option<Derivation>,
}

/// Derives the address of the lockbox of `owner` and, from that, the address
/// of its vault.
pub fn locate(program_id: &Identity, owner: &Identity) -> (located: Located)
    ensures
        found_view(located.lockbox) == lockbox_address(program_id@, owner@),
        found_view(located.vault) == vault_address(program_id@, owner@),
{
    let lockbox_seed: [u8; 7] = LOCKBOX_SEED;
    let lockbox = try_find_program_address(lockbox_seed.as_slice(), owner, program_id);
    let vault = match &lockbox {
        Some(derivation) => {
            let vault_seed: [u8; 5] = VAULT_SEED;
            try_find_program_address(vault_seed.as_slice(), &derivation.address, program_id)
        },
        None => None,
    };
    Located { lockbox, vault }
}

} // verus!
