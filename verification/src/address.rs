//! Derived addresses: the accounts that the program itself controls, found
//! from a fixed label, an identity and the program's own identifier.

use vstd::prelude::*;
use anchor_lang::prelude::Pubkey;
use crate::identity::Identity;

verus! {

/// What `Pubkey::try_find_program_address` returns for a list of seeds
/// under a program: the derived address and its nonce, or `None` where it
/// finds none.
pub uninterp spec fn program_address(seeds: Seq<Seq<u8>>, program_id: Seq<u8>) -> Option<(Seq<u8>, u8)>;

/// Owned seeds as sequences of bytes.
pub open spec fn seeds_view(seeds: Seq<Vec<u8>>) -> Seq<Seq<u8>> {
    Seq::new(seeds.len(), |i: int| seeds[i]@)
}

/// Borrowed seeds as sequences of bytes.
pub open spec fn slices_view(seeds: Seq<&[u8]>) -> Seq<Seq<u8>> {
    Seq::new(seeds.len(), |i: int| seeds[i]@)
}

/// Calls `Pubkey::try_find_program_address` of `anchor_lang` (the type is
/// that of `solana_pubkey`). Nothing is proved of it. The contract claims
/// only that the outcome is a function of the seeds' bytes and the program's
/// bytes: the address and nonce found are the ones `program_address` names,
/// and nothing is found exactly where it names none.
#[verifier::external_body]
pub(crate) fn find_program_address(seeds: &Vec<&[u8]>, program_id: &Identity) -> (found: Option<(Identity, u8)>)
    ensures
        derived_view(found) == program_address(slices_view(seeds@), program_id@),
{
    let program = Pubkey::new_from_array(program_id.bytes);
    match Pubkey::try_find_program_address(seeds.as_slice(), &program) {
        Some((address, bump)) => Some((Identity { bytes: address.to_bytes() }, bump)),
        None => None,
    }
}

/// A derivation's outcome with the address as its bytes.
pub open spec fn derived_view(found: Option<(Identity, u8)>) -> Option<(Seq<u8>, u8)> {
    match found {
        Some((address, bump)) => Some((address@, bump)),
        None => None,
    }
}

/// Whether `derived` is an address, and is `key` with the nonce `bump`.
pub open spec fn derived_as(derived: Option<(Seq<u8>, u8)>, key: Seq<u8>, bump: u8) -> bool {
    derived == Some((key, bump))
}

/// Whether `derived` is an address, and is `key`, whatever the nonce.
pub open spec fn derived_at(derived: Option<(Seq<u8>, u8)>, key: Seq<u8>) -> bool {
    derived matches Some((address, _)) && address == key
}

/// The nonce of a derivation that gave the address `key`; `None` where
/// it gave another address or none.
pub fn nonce_at(found: &Option<(Identity, u8)>, key: &Identity) -> (nonce: Option<u8>)
    ensures
        nonce is Some == derived_at(derived_view(*found), key@),
        nonce matches Some(bump) ==> derived_as(derived_view(*found), key@, bump),
{
    match found {
        Some((address, bump)) => {
            if *address == *key {
                Some(*bump)
            } else {
                None
            }
        },
        None => None,
    }
}

/// Tells whether a derivation gave exactly the address `key` and the nonce
/// `bump`.
pub fn derivation_matches(found: &Option<(Identity, u8)>, key: &Identity, bump: u8) -> (same: bool)
    ensures
        same == derived_as(derived_view(*found), key@, bump),
{
    match found {
        Some((address, nonce)) => *address == *key && *nonce == bump,
        None => false,
    }
}

/// Label under which the platform configuration is derived: the ASCII
/// bytes of `global_state`.
pub open spec fn global_state_label() -> Seq<u8> {
    seq![0x67u8, 0x6c, 0x6f, 0x62, 0x61, 0x6c, 0x5f, 0x73, 0x74, 0x61, 0x74, 0x65]
}

/// Label under which a streamer's vault record is derived: the ASCII bytes
/// of `user`.
pub open spec fn user_label() -> Seq<u8> {
    seq![0x75u8, 0x73, 0x65, 0x72]
}

/// Seeds of the platform configuration.
pub open spec fn global_state_seeds() -> Seq<Seq<u8>> {
    seq![global_state_label()]
}

/// Seeds of the vault record of `owner`.
pub open spec fn streamer_seeds(owner: Seq<u8>) -> Seq<Seq<u8>> {
    seq![user_label(), owner]
}

/// The configuration label as bytes.
pub fn global_state_label_bytes() -> (label: Vec<u8>)
    ensures
        label@ == global_state_label(),
{
    let label: Vec<u8> = vec![0x67u8, 0x6c, 0x6f, 0x62, 0x61, 0x6c, 0x5f, 0x73, 0x74, 0x61, 0x74, 0x65];
    assert(label@ =~= global_state_label());
    label
}

/// The vault label as bytes.
pub fn user_label_bytes() -> (label: Vec<u8>)
    ensures
        label@ == user_label(),
{
    let label: Vec<u8> = vec![0x75u8, 0x73, 0x65, 0x72];
    assert(label@ =~= user_label());
    label
}

/// Seeds of the token account that `wallet` holds of `mint` under
/// `token_program`.
pub open spec fn associated_token_seeds(wallet: Seq<u8>, token_program: Seq<u8>, mint: Seq<u8>) -> Seq<Seq<u8>> {
    seq![wallet, token_program, mint]
}

/// The bytes of the identifier of the associated-token program.
pub open spec fn associated_token_program_bytes() -> Seq<u8> {
    seq![
        0x8cu8, 0x97, 0x25, 0x8f, 0x4e, 0x24, 0x89, 0xf1, 0xbb, 0x3d, 0x10, 0x29, 0x14, 0x8e, 0x0d, 0x83,
        0x0b, 0x5a, 0x13, 0x99, 0xda, 0xff, 0x10, 0x84, 0x04, 0x8e, 0x7b, 0xd8, 0xdb, 0xe9, 0xf8, 0x59,
    ]
}

/// The identifier of the associated-token program
/// (`ATokenGPvbdGVxr1b2hvZbsiqW5xWH25efTNsLJA8knL` in base 58), under which
/// the address of a wallet's token account is derived.
pub fn associated_token_program() -> (program: Identity)
    ensures
        program@ == associated_token_program_bytes(),
{
    let program = Identity::new(
        [
            0x8cu8, 0x97, 0x25, 0x8f, 0x4e, 0x24, 0x89, 0xf1, 0xbb, 0x3d, 0x10, 0x29, 0x14, 0x8e, 0x0d, 0x83,
            0x0b, 0x5a, 0x13, 0x99, 0xda, 0xff, 0x10, 0x84, 0x04, 0x8e, 0x7b, 0xd8, 0xdb, 0xe9, 0xf8, 0x59,
        ],
    );
    assert(program@ =~= associated_token_program_bytes());
    program
}

/// What is derived for the platform configuration under `program_id`.
pub open spec fn global_state_address(program_id: Seq<u8>) -> Option<(Seq<u8>, u8)> {
    program_address(global_state_seeds(), program_id)
}

/// What is derived for the vault record of `owner` under `program_id`.
pub open spec fn streamer_address(program_id: Seq<u8>, owner: Seq<u8>) -> Option<(Seq<u8>, u8)> {
    program_address(streamer_seeds(owner), program_id)
}

/// What is derived for the token account that `wallet` holds of `mint`
/// under `token_program`.
pub open spec fn associated_token_address(wallet: Seq<u8>, mint: Seq<u8>, token_program: Seq<u8>) -> Option<
    (Seq<u8>, u8),
> {
    program_address(associated_token_seeds(wallet, token_program, mint), associated_token_program_bytes())
}

/// Derives the address and nonce of the platform configuration under
/// `program_id`.
pub fn derive_global_state(program_id: &Identity) -> (found: Option<(Identity, u8)>)
    ensures
        derived_view(found) == global_state_address(program_id@),
{
    let label = global_state_label_bytes();
    let mut seeds: Vec<&[u8]> = Vec::new();
    seeds.push(label.as_slice());
    assert(slices_view(seeds@) =~= global_state_seeds());
    find_program_address(&seeds, program_id)
}

/// Derives the address and nonce of the vault record of `owner` under
/// `program_id`.
pub fn derive_streamer(program_id: &Identity, owner: &Identity) -> (found: Option<(Identity, u8)>)
    ensures
        derived_view(found) == streamer_address(program_id@, owner@),
{
    let label = user_label_bytes();
    let mut seeds: Vec<&[u8]> = Vec::new();
    seeds.push(label.as_slice());
    seeds.push(owner.bytes.as_slice());
    assert(slices_view(seeds@) =~= streamer_seeds(owner@));
    find_program_address(&seeds, program_id)
}

/// Derives the address and nonce of the token account that `wallet` holds
/// of `mint` under `token_program`: the seeds are the wallet, the token
/// program and the mint, in that order, under the associated-token
/// program.
pub fn derive_associated_token(wallet: &Identity, mint: &Identity, token_program: &Identity) -> (found: Option<
    (Identity, u8),
>)
    ensures
        derived_view(found) == associated_token_address(wallet@, mint@, token_program@),
{
    let mut seeds: Vec<&[u8]> = Vec::new();
    seeds.push(wallet.bytes.as_slice());
    seeds.push(token_program.bytes.as_slice());
    seeds.push(mint.bytes.as_slice());
    assert(slices_view(seeds@) =~= associated_token_seeds(wallet@, token_program@, mint@));
    let program = associated_token_program();
    find_program_address(&seeds, &program)
}

} // verus!
