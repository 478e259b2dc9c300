use anchor_lang::prelude::Pubkey;
use vstd::prelude::*;

use crate::constants::{ID, VAULT_SEED, VAULT_STATE_SEED};

verus! {

/// The seeds `[seed, key, [bump]]`.
pub open spec fn bump_seeds(seed: Seq<u8>, key: Seq<u8>, bump: u8) -> Seq<Seq<u8>> {
    seq![seed, key, seq![bump]]
}

/// The program address, with its bump seed, that `Pubkey::try_find_program_address`
/// finds for `seeds` under `program_id` (`None` where no bump seed yields one).
pub uninterp spec fn program_address(seeds: Seq<Seq<u8>>, program_id: Seq<u8>) -> Option<(Seq<u8>, u8)>;

/// The address that `Pubkey::create_program_address` makes of `seeds` under
/// `program_id` (`None` where it fails: a seed too long, or a digest on the
/// ed25519 curve).
pub uninterp spec fn created_address(seeds: Seq<Seq<u8>>, program_id: Seq<u8>) -> Option<Seq<u8>>;

/// The program address and bump seed for the seeds `[seed, key]` under
/// `program_id`, or `None` where no bump seed yields an address off the curve.
/// Calls `Pubkey::try_find_program_address`; its result is believed to be
/// `program_address` of the same seeds and program id. Two more facts are
/// claimed, which the source shows (it tries the bump seeds from 255 down and
/// returns the first for which `create_program_address` succeeds, with that
/// address): the seeds with the bump seed appended create the address found,
/// and no larger bump seed creates any address. What the address is on given
/// values takes SHA-256 and the ed25519 curve to say, and is not stated.
#[verifier::external_body]
fn try_find_program_address(seed: &[u8], key: &[u8; 32], program_id: &[u8; 32]) -> (r: Option<([u8; 32], u8)>)
    ensures
        program_address(seq![seed@, key@], program_id@) == (match r {
            Some((address, bump)) => Some((address@, bump)),
            None => None,
        }),
        r matches Some((address, bump)) ==> created_address(bump_seeds(seed@, key@, bump), program_id@) == Some(
            address@,
        ),
        r matches Some((address, bump)) ==> forall|b: u8|
            bump < b ==> #[trigger] created_address(bump_seeds(seed@, key@, b), program_id@) is None,
{
    match Pubkey::try_find_program_address(&[seed, key.as_slice()], &Pubkey::new_from_array(*program_id)) {
        Some((address, bump)) => Some((address.to_bytes(), bump)),
        None => None,
    }
}

/// The address that the seeds `[seed, key, [bump]]` create under
/// `program_id`, or `None` where `Pubkey::create_program_address` fails.
/// Calls `Pubkey::create_program_address`; its result is believed to be
/// `created_address` of the same seeds and program id, and nothing more is
/// claimed of it.
#[verifier::external_body]
fn create_program_address(seed: &[u8], key: &[u8; 32], bump: u8, program_id: &[u8; 32]) -> (r: Option<[u8; 32]>)
    ensures
        created_address(bump_seeds(seed@, key@, bump), program_id@) == (match r {
            Some(address) => Some(address@),
            None => None,
        }),
{
    match Pubkey::create_program_address(&[seed, key.as_slice(), &[bump]], &Pubkey::new_from_array(*program_id)) {
        Ok(address) => Some(address.to_bytes()),
        Err(_) => None,
    }
}

/// The address of the vault of `user`, with its bump seed.
pub open spec fn vault_address(user: Seq<u8>) -> Option<(Seq<u8>, u8)> {
    program_address(seq![VAULT_SEED@, user], ID@)
}

/// The address of the vault state of `user`, with its bump seed.
pub open spec fn vault_state_address(user: Seq<u8>) -> Option<(Seq<u8>, u8)> {
    program_address(seq![VAULT_STATE_SEED@, user], ID@)
}

/// The vault address of `user` that the bump seed `bump` creates.
pub open spec fn vault_address_with_bump(user: Seq<u8>, bump: u8) -> Option<Seq<u8>> {
    created_address(bump_seeds(VAULT_SEED@, user, bump), ID@)
}

/// The vault state address of `user` that the bump seed `bump` creates.
pub open spec fn vault_state_address_with_bump(user: Seq<u8>, bump: u8) -> Option<Seq<u8>> {
    created_address(bump_seeds(VAULT_STATE_SEED@, user, bump), ID@)
}

/// No bump seed larger than `bump` creates a vault address for `user`.
pub open spec fn canonical_vault_bump(user: Seq<u8>, bump: u8) -> bool {
    forall|b: u8| bump < b ==> #[trigger] vault_address_with_bump(user, b) is None
}

/// No bump seed larger than `bump` creates a vault state address for `user`.
pub open spec fn canonical_vault_state_bump(user: Seq<u8>, bump: u8) -> bool {
    forall|b: u8| bump < b ==> #[trigger] vault_state_address_with_bump(user, b) is None
}

/// The view of a found address.
pub open spec fn found_view(r: Option<([u8; 32], u8)>) -> Option<(Seq<u8>, u8)> {
    match r {
        Some((address, bump)) => Some((address@, bump)),
        None => None,
    }
}

/// Derives the vault address of `user` and its bump seed from the seeds
/// `[VAULT_SEED, user]` under the program's address.
pub fn find_vault_address(user: &[u8; 32]) -> (r: Option<([u8; 32], u8)>)
    ensures
        found_view(r) == vault_address(user@),
        r matches Some((address, bump)) ==> vault_address_with_bump(user@, bump) == Some(address@),
        r matches Some((address, bump)) ==> canonical_vault_bump(user@, bump),
{
    let id = ID;
    try_find_program_address(&VAULT_SEED, user, &id)
}

/// Derives the vault state address of `user` and its bump seed from the seeds
/// `[VAULT_STATE_SEED, user]` under the program's address.
pub fn find_vault_state_address(user: &[u8; 32]) -> (r: Option<([u8; 32], u8)>)
    ensures
        found_view(r) == vault_state_address(user@),
        r matches Some((address, bump)) ==> vault_state_address_with_bump(user@, bump) == Some(address@),
        r matches Some((address, bump)) ==> canonical_vault_state_bump(user@, bump),
{
    let id = ID;
    try_find_program_address(&VAULT_STATE_SEED, user, &id)
}

} // verus!

verus! {

/// The vault address of `user` that the bump seed `bump` creates, or `None`
/// where no address comes of it.
pub fn create_vault_address(user: &[u8; 32], bump: u8) -> (r: Option<[u8; 32]>)
    ensures
        vault_address_with_bump(user@, bump) == (match r {
            Some(address) => Some(address@),
            None => None,
        }),
{
    let id = ID;
    create_program_address(&VAULT_SEED, user, bump, &id)
}

/// The vault state address of `user` that the bump seed `bump` creates, or
/// `None` where no address comes of it.
pub fn create_vault_state_address(user: &[u8; 32], bump: u8) -> (r: Option<[u8; 32]>)
    ensures
        vault_state_address_with_bump(user@, bump) == (match r {
            Some(address) => Some(address@),
            None => None,
        }),
{
    let id = ID;
    create_program_address(&VAULT_STATE_SEED, user, bump, &id)
}

} // verus!
