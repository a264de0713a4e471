//! What the command line hands to the program: how it is reached, and the
//! request that creates a lock.

use vstd::prelude::*;
use crate::pubkey::{pubkey_from_text, Pubkey};

verus! {

/// How the command line reaches the program, taken from its settings.
#[derive(Debug, Clone)]
pub struct InitProgramParams {
    pub rpc_url: String,
    pub wss_url: String,
    pub authority_path: String,
    pub approver_path: String,
}

/// A request to create a lock: what the creator chooses, and the two other parties.
#[derive(Clone, Copy, Debug, PartialEq, Eq)]
pub struct CreateConfigParams {
    pub cliff_time_duration: u64,
    pub amount_per_day: u64,
    pub update_actor_mode: u8,
    pub enable_transfer_full: u8,
    pub recipient: Pubkey,
    pub approver: Pubkey,
}

impl CreateConfigParams {
    /// What the command line asks for: a time gate one day after creation, a
    /// daily ceiling of one million units, no actor that may ask for a change,
    /// and full transfers denied.
    pub open spec fn spec_one_day_lock(recipient: Pubkey, approver: Pubkey) -> CreateConfigParams {
        CreateConfigParams {
            cliff_time_duration: 86400,
            amount_per_day: 1_000_000,
            update_actor_mode: 0,
            enable_transfer_full: 0,
            recipient,
            approver,
        }
    }

    /// The request that the command line makes for a recipient and an approver.
    pub fn one_day_lock(recipient: Pubkey, approver: Pubkey) -> (params: CreateConfigParams)
        ensures
            params == CreateConfigParams::spec_one_day_lock(recipient, approver),
    {
        CreateConfigParams {
            cliff_time_duration: 24 * 60 * 60,
            amount_per_day: 1_000_000,
            update_actor_mode: 0,
            enable_transfer_full: 0,
            recipient,
            approver,
        }
    }

    /// The request that the command line makes for a recipient given as text.
    /// There is none exactly when the text stands for no address.
    pub fn for_recipient(recipient: &str, approver: Pubkey) -> (params: Option<CreateConfigParams>)
        ensures
            match params {
                Some(params) => pubkey_from_text(recipient@) == Some(params.recipient@) && params
                    == CreateConfigParams::spec_one_day_lock(params.recipient, approver),
                None => pubkey_from_text(recipient@) is None,
            },
    {
        match Pubkey::from_text(recipient) {
            Some(recipient) => Some(CreateConfigParams::one_day_lock(recipient, approver)),
            None => None,
        }
    }

    /// The part of the request that travels as the instruction's parameters.
    pub fn instruction_params(&self) -> (params: crate::state::config_account::CreateConfigParams)
        ensures
            params == (crate::state::config_account::CreateConfigParams {
                cliff_time_duration: self.cliff_time_duration,
                amount_per_day: self.amount_per_day,
                update_actor_mode: self.update_actor_mode,
                enable_transfer_full: self.enable_transfer_full,
            }),
    {
        crate::state::config_account::CreateConfigParams {
            cliff_time_duration: self.cliff_time_duration,
            amount_per_day: self.amount_per_day,
            update_actor_mode: self.update_actor_mode,
            enable_transfer_full: self.enable_transfer_full,
        }
    }
}

} // verus!
