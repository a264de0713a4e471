//! Derived addresses: the vault is found from the authority's key, the config
//! account from the vault's address, and a token-holding account from its
//! wallet and mint. No private key exists for a derived address.

use vstd::prelude::*;
use vstd::slice::slice_to_vec;
use crate::constants::{ASSOCIATED_TOKEN_PROGRAM_ID, CONFIG_SEED, ESCROW_SEED};
use crate::pubkey::Pubkey;
use crate::state::config_account::ConfigAccount;

verus! {

/// The address and disambiguation byte that the search over disambiguation
/// bytes yields for these seeds under this program, if it yields any.
pub uninterp spec fn found_program_address(seeds: Seq<Seq<u8>>, program_id: Seq<u8>) -> Option<(Seq<u8>, u8)>;

/// The address that these seeds, taken as they are, give under this program,
/// if they give one that no private key can control.
pub uninterp spec fn created_program_address(seeds: Seq<Seq<u8>>, program_id: Seq<u8>) -> Option<Seq<u8>>;

/// The byte sequences that a list of seeds holds.
pub open spec fn seeds_view(seeds: Seq<Vec<u8>>) -> Seq<Seq<u8>> {
    Seq::new(seeds.len(), |i: int| seeds[i]@)
}

/// A derived address with its disambiguation byte, as plain values.
pub open spec fn derived_view(derived: Option<(Pubkey, u8)>) -> Option<(Seq<u8>, u8)> {
    match derived {
        Some((key, bump)) => Some((key@, bump)),
        None => None,
    }
}

/// An address, if there is one, as plain bytes.
pub open spec fn address_view(address: Option<Pubkey>) -> Option<Seq<u8>> {
    match address {
        Some(key) => Some(key@),
        None => None,
    }
}

/// Whether `address` is the address that a derivation found.
pub open spec fn is_derived(found: Option<(Seq<u8>, u8)>, address: Pubkey) -> bool {
    found matches Some(pair) && pair.0 == address@
}

/// Seeds of the vault of an authority.
pub open spec fn escrow_seed_list(authority: Seq<u8>) -> Seq<Seq<u8>> {
    seq![ESCROW_SEED@, authority]
}

/// Seeds of the config account that governs a vault.
pub open spec fn config_seed_list(escrow: Seq<u8>) -> Seq<Seq<u8>> {
    seq![CONFIG_SEED@, escrow]
}

/// Seeds with which the program signs for the vault of an authority.
pub open spec fn escrow_signer_seed_list(authority: Seq<u8>, bump: u8) -> Seq<Seq<u8>> {
    seq![ESCROW_SEED@, authority, seq![bump]]
}

/// Seeds of the token-holding account of a wallet under a mint.
pub open spec fn associated_token_seed_list(wallet: Seq<u8>, token_program: Seq<u8>, mint: Seq<u8>) -> Seq<Seq<u8>> {
    seq![wallet, token_program, mint]
}

/// The vault address of an authority, with its disambiguation byte.
pub open spec fn escrow_address(authority: Seq<u8>, program_id: Seq<u8>) -> Option<(Seq<u8>, u8)> {
    found_program_address(escrow_seed_list(authority), program_id)
}

/// The address of the config account of a vault, with its disambiguation byte.
pub open spec fn config_address(escrow: Seq<u8>, program_id: Seq<u8>) -> Option<(Seq<u8>, u8)> {
    found_program_address(config_seed_list(escrow), program_id)
}

/// The address of the token-holding account of a wallet under a mint.
pub open spec fn associated_token_address(wallet: Seq<u8>, mint: Seq<u8>, token_program: Seq<u8>) -> Option<(Seq<u8>, u8)> {
    found_program_address(
        associated_token_seed_list(wallet, token_program, mint),
        ASSOCIATED_TOKEN_PROGRAM_ID@,
    )
}

/// The address for which the program can sign with the seeds that a config
/// account stores: its authority and its vault's disambiguation byte.
pub open spec fn signing_address(authority: Seq<u8>, bump: u8, program_id: Seq<u8>) -> Option<Seq<u8>> {
    created_program_address(escrow_signer_seed_list(authority, bump), program_id)
}

/// Calls `Pubkey::try_find_program_address` of solana-program, as anchor-lang
/// hands it on. Trusted: the result is a function of the seeds and the program
/// address alone, and an address that is found is the one that
/// `Pubkey::create_program_address` gives for the same seeds followed by the
/// one-byte seed holding the disambiguation byte found.
#[verifier::external_body]
fn try_find_program_address(seeds: &Vec<Vec<u8>>, program_id: &Pubkey) -> (found: Option<(Pubkey, u8)>)
    ensures
        derived_view(found) == found_program_address(seeds_view(seeds@), program_id@),
        found matches Some((key, bump)) ==> created_program_address(
            seeds_view(seeds@).push(seq![bump]),
            program_id@,
        ) == Some(key@),
{
    let parts: Vec<&[u8]> = seeds.iter().map(|seed| seed.as_slice()).collect();
    let program = anchor_lang::prelude::Pubkey::new_from_array(program_id.bytes);
    match anchor_lang::prelude::Pubkey::try_find_program_address(&parts, &program) {
        Some((address, bump)) => Some((Pubkey { bytes: address.to_bytes() }, bump)),
        None => None,
    }
}

/// Calls `Pubkey::create_program_address` of solana-program, as anchor-lang
/// hands it on. Trusted: the result is a function of the seeds and the program
/// address alone; the outside error is given as `None`.
#[verifier::external_body]
fn create_program_address(seeds: &Vec<Vec<u8>>, program_id: &Pubkey) -> (created: Option<Pubkey>)
    ensures
        address_view(created) == created_program_address(seeds_view(seeds@), program_id@),
{
    let parts: Vec<&[u8]> = seeds.iter().map(|seed| seed.as_slice()).collect();
    let program = anchor_lang::prelude::Pubkey::new_from_array(program_id.bytes);
    match anchor_lang::prelude::Pubkey::create_program_address(&parts, &program) {
        Ok(address) => Some(Pubkey { bytes: address.to_bytes() }),
        Err(_) => None,
    }
}

/// Derives the vault address of an authority.
pub fn find_escrow_address(authority: &Pubkey, program_id: &Pubkey) -> (found: Option<(Pubkey, u8)>)
    ensures
        derived_view(found) == escrow_address(authority@, program_id@),
        found matches Some((key, bump)) ==> signing_address(authority@, bump, program_id@) == Some(key@),
{
    let mut seeds: Vec<Vec<u8>> = Vec::new();
    seeds.push(slice_to_vec(ESCROW_SEED.as_slice()));
    seeds.push(authority.to_vec());
    assert(seeds_view(seeds@) =~= escrow_seed_list(authority@));
    let found = try_find_program_address(&seeds, program_id);
    proof {
        if let Some((key, bump)) = found {
            assert(seeds_view(seeds@).push(seq![bump]) =~= escrow_signer_seed_list(authority@, bump));
        }
    }
    found
}

/// Derives the address of the config account that governs a vault.
pub fn find_config_address(escrow: &Pubkey, program_id: &Pubkey) -> (found: Option<(Pubkey, u8)>)
    ensures
        derived_view(found) == config_address(escrow@, program_id@),
{
    let mut seeds: Vec<Vec<u8>> = Vec::new();
    seeds.push(slice_to_vec(CONFIG_SEED.as_slice()));
    seeds.push(escrow.to_vec());
    assert(seeds_view(seeds@) =~= config_seed_list(escrow@));
    try_find_program_address(&seeds, program_id)
}

/// Derives both addresses of the lock of an authority: the vault from the
/// authority's key, and the config account from the vault's address. The
/// config account's address thus tells which vault it governs.
pub fn find_lock_addresses(authority: &Pubkey, program_id: &Pubkey) -> (found: Option<(Pubkey, Pubkey)>)
    ensures
        match found {
            Some((escrow, config_account)) => {
                &&& escrow_address(authority@, program_id@) matches Some(derived) && derived.0
                    == escrow@
                &&& config_address(escrow@, program_id@) matches Some(derived) && derived.0
                    == config_account@
            },
            None => escrow_address(authority@, program_id@) matches Some(derived) ==> config_address(
                derived.0,
                program_id@,
            ) is None,
        },
{
    match find_escrow_address(authority, program_id) {
        Some((escrow, _)) => match find_config_address(&escrow, program_id) {
            Some((config_account, _)) => Some((escrow, config_account)),
            None => None,
        },
        None => None,
    }
}

/// Derives the address of the token-holding account of a wallet under a mint
/// that the given token program owns.
pub fn find_associated_token_address(wallet: &Pubkey, mint: &Pubkey, token_program: &Pubkey) -> (found: Option<(Pubkey, u8)>)
    ensures
        derived_view(found) == associated_token_address(wallet@, mint@, token_program@),
{
    let mut seeds: Vec<Vec<u8>> = Vec::new();
    seeds.push(wallet.to_vec());
    seeds.push(token_program.to_vec());
    seeds.push(mint.to_vec());
    assert(seeds_view(seeds@) =~= associated_token_seed_list(wallet@, token_program@, mint@));
    let program = Pubkey::new_from_array(ASSOCIATED_TOKEN_PROGRAM_ID);
    try_find_program_address(&seeds, &program)
}

/// The seeds with which the program signs for the vault of a config account:
/// the vault's tag, the authority's key, and the disambiguation byte stored.
pub fn escrow_seeds(config_account: &ConfigAccount) -> (seeds: Vec<Vec<u8>>)
    ensures
        seeds_view(seeds@) == escrow_signer_seed_list(
            config_account.authority@,
            config_account.escrow_bump,
        ),
{
    let mut seeds: Vec<Vec<u8>> = Vec::new();
    seeds.push(slice_to_vec(ESCROW_SEED.as_slice()));
    seeds.push(config_account.authority.to_vec());
    let mut bump_seed: Vec<u8> = Vec::new();
    bump_seed.push(config_account.escrow_bump);
    seeds.push(bump_seed);
    assert(seeds_view(seeds@) =~= escrow_signer_seed_list(
        config_account.authority@,
        config_account.escrow_bump,
    ));
    seeds
}

/// Rebuilds the address for which the program may sign with the seeds that a
/// config account stores. Nothing but this derivation can authorise a movement
/// out of a vault.
pub fn reconstruct_signing_address(config_account: &ConfigAccount, program_id: &Pubkey) -> (address: Option<Pubkey>)
    ensures
        address_view(address) == signing_address(
            config_account.authority@,
            config_account.escrow_bump,
            program_id@,
        ),
{
    let seeds = escrow_seeds(config_account);
    create_program_address(&seeds, program_id)
}

/// Derivation is deterministic: the same seeds under the same program give
/// the same address with the same disambiguation byte. So a key has one vault
/// as an authority, and a vault has one config account.
pub proof fn lemma_derivation_deterministic(
    seeds_a: Seq<Seq<u8>>,
    seeds_b: Seq<Seq<u8>>,
    key_a: Pubkey,
    key_b: Pubkey,
    program_a: Pubkey,
    program_b: Pubkey,
)
    requires
        seeds_a == seeds_b,
        key_a@ == key_b@,
        program_a@ == program_b@,
    ensures
        found_program_address(seeds_a, program_a@) == found_program_address(seeds_b, program_b@),
        created_program_address(seeds_a, program_a@) == created_program_address(
            seeds_b,
            program_b@,
        ),
        escrow_address(key_a@, program_a@) == escrow_address(key_b@, program_b@),
        config_address(key_a@, program_a@) == config_address(key_b@, program_b@),
{
}

} // verus!
