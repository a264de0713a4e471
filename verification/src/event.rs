//! What each instruction that succeeds appends to the ledger's log.

use vstd::prelude::*;
use crate::pubkey::Pubkey;

verus! {

/// Logged when a config account and its vault are created.
#[derive(Clone, Copy, Debug, PartialEq, Eq)]
pub struct CreateConfigEvent {
    pub authority: Pubkey,
    pub approver: Pubkey,
    pub recipient: Pubkey,
    pub cliff_time_duration: u64,
    pub amount_per_day: u64,
    pub update_actor_mode: u8,
    pub enable_transfer_full: u8,
}

/// Logged when value leaves a vault.
#[derive(Clone, Copy, Debug, PartialEq, Eq)]
pub struct TransferEvent {
    pub from: Pubkey,
    pub to: Pubkey,
    pub config_account: Pubkey,
    pub amount: u64,
}

} // verus!
