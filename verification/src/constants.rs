//! Seeds and well-known program addresses.

use vstd::prelude::*;
use crate::pubkey::Pubkey;

verus! {

/// Seed tag of the vault address, which is derived from the authority's key.
pub const ESCROW_SEED: [u8; 6] = [101, 115, 99, 114, 111, 119];

/// Seed tag of the config account address, which is derived from the vault's address.
pub const CONFIG_SEED: [u8; 6] = [99, 111, 110, 102, 105, 103];

/// Bytes of this program's address.
pub const ID: [u8; 32] = [
    67, 238, 174, 199, 95, 229, 168, 145, 112, 152, 62, 190, 186, 3, 106, 205,
    179, 244, 81, 136, 118, 109, 208, 215, 42, 151, 193, 97, 2, 138, 20, 196,
];

/// Bytes of the address of the legacy token program.
pub const TOKEN_PROGRAM_ID: [u8; 32] = [
    6, 221, 246, 225, 215, 101, 161, 147, 217, 203, 225, 70, 206, 235, 121, 172,
    28, 180, 133, 237, 95, 91, 55, 145, 58, 140, 245, 133, 126, 255, 0, 169,
];

/// Bytes of the address of the extended token program.
pub const TOKEN_2022_PROGRAM_ID: [u8; 32] = [
    6, 221, 246, 225, 238, 117, 143, 222, 24, 66, 93, 188, 228, 108, 205, 218,
    182, 26, 252, 77, 131, 185, 13, 39, 254, 189, 249, 40, 216, 161, 139, 252,
];

/// Bytes of the address of the program that owns associated token accounts.
pub const ASSOCIATED_TOKEN_PROGRAM_ID: [u8; 32] = [
    140, 151, 37, 143, 78, 36, 137, 241, 187, 61, 16, 41, 20, 142, 13, 131,
    11, 90, 19, 153, 218, 255, 16, 132, 4, 142, 123, 216, 219, 233, 248, 89,
];

/// This program's address.
pub open spec fn program_id() -> Pubkey {
    Pubkey { bytes: ID }
}

/// This program's address.
pub fn id() -> (key: Pubkey)
    ensures
        key == program_id(),
{
    Pubkey::new_from_array(ID)
}

/// The address of the legacy token program.
pub fn token_program_id() -> (key: Pubkey)
    ensures
        key.bytes == TOKEN_PROGRAM_ID,
{
    Pubkey::new_from_array(TOKEN_PROGRAM_ID)
}

/// The address of the extended token program.
pub fn token_2022_program_id() -> (key: Pubkey)
    ensures
        key.bytes == TOKEN_2022_PROGRAM_ID,
{
    Pubkey::new_from_array(TOKEN_2022_PROGRAM_ID)
}

/// The address of the program that owns associated token accounts.
pub fn associated_token_program_id() -> (key: Pubkey)
    ensures
        key.bytes == ASSOCIATED_TOKEN_PROGRAM_ID,
{
    Pubkey::new_from_array(ASSOCIATED_TOKEN_PROGRAM_ID)
}

} // verus!
