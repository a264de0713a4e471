//! Ledger accounts as plain values: what an instruction reads of each account
//! handed to it, and what it may change.

use vstd::prelude::*;
use crate::pubkey::Pubkey;
use crate::state::config_account::ConfigAccount;

verus! {

/// An account that may have signed the instruction.
#[derive(Clone, Copy, Debug, PartialEq, Eq)]
pub struct Signer {
    pub key: Pubkey,
    /// Whether the instruction carries this key's signature.
    pub is_signer: bool,
    /// Native balance.
    pub lamports: u64,
}

/// An account that holds native value and no data of the program.
#[derive(Clone, Copy, Debug, PartialEq, Eq)]
pub struct AccountInfo {
    pub key: Pubkey,
    /// Native balance.
    pub lamports: u64,
    /// Whether an account has been created at this address.
    pub in_use: bool,
}

/// The place of a config account: its address and, once created, its record.
#[derive(Clone, Copy, Debug, PartialEq, Eq)]
pub struct AccountLoader {
    pub key: Pubkey,
    /// `None` until the account is created.
    pub data: Option<ConfigAccount>,
}

/// A token-holding account.
#[derive(Clone, Copy, Debug, PartialEq, Eq)]
pub struct TokenAccount {
    pub key: Pubkey,
    /// The mint whose tokens the account holds.
    pub mint: Pubkey,
    /// The wallet that the account belongs to.
    pub owner: Pubkey,
    /// Token balance.
    pub amount: u64,
}

/// A token mint.
#[derive(Clone, Copy, Debug, PartialEq, Eq)]
pub struct Mint {
    pub key: Pubkey,
    /// Number of decimal places of an amount.
    pub decimals: u8,
    /// The token program that owns the mint.
    pub owner: Pubkey,
}

/// The ledger's clock.
#[derive(Clone, Copy, Debug, PartialEq, Eq)]
pub struct Clock {
    /// Seconds since the Unix epoch.
    pub unix_timestamp: i64,
}

} // verus!
