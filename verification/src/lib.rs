//! A custodial fund lock: a vault that releases value only to a recipient
//! fixed at creation, under the joint signatures of an authority and an
//! approver.

pub mod cli;
pub mod constants;
pub mod pubkey;
pub mod derivation;
pub mod errors;
pub mod event;
pub mod state;
pub mod instructions;

use vstd::prelude::*;
use crate::constants::{id, program_id};
use crate::errors::LockFundEscrowError;
use crate::event::{CreateConfigEvent, TransferEvent};
use crate::instructions::create_config::{
    create_config_event, create_config_failure, create_config_handler, create_config_outcome,
    CreateConfig,
};
use crate::instructions::transfer_sol::{
    transfer_sol_event, transfer_sol_failure, transfer_sol_handler, transfer_sol_outcome, TransferSol,
};
use crate::instructions::transfer_token::{
    transfer_token_event, transfer_token_failure, transfer_token_handler, transfer_token_order,
    transfer_token_outcome, TransferChecked, TransferToken,
};
use crate::state::accounts::Clock;
use crate::state::config_account::CreateConfigParams;

verus! {

/// The instruction that creates a lock under this program's address: the
/// config account and the vault of the authority, at their derived addresses.
/// `rent` is the deposit that the ledger takes from the authority for the
/// storage of both.
pub fn create_config(ctx: &mut CreateConfig, params: CreateConfigParams, clock: &Clock, rent: u64) -> (result: Result<
    CreateConfigEvent,
    LockFundEscrowError,
>)
    ensures
        match result {
            Ok(event) => {
                &&& create_config_failure(*old(ctx), params, *clock, rent, program_id()) is None
                &&& *final(ctx) == create_config_outcome(*old(ctx), params, *clock, rent, program_id())
                &&& event == create_config_event(*old(ctx), params)
            },
            Err(error) => {
                &&& create_config_failure(*old(ctx), params, *clock, rent, program_id()) == Some(error)
                &&& *final(ctx) == *old(ctx)
            },
        },
{
    let program = id();
    create_config_handler(ctx, &params, clock, rent, &program)
}

/// The instruction that moves tokens out of a vault of this program.
pub fn transfer_token(ctx: &mut TransferToken, amount: u64) -> (result: Result<
    (TransferChecked, TransferEvent),
    LockFundEscrowError,
>)
    ensures
        match result {
            Ok(done) => {
                &&& transfer_token_failure(*old(ctx), amount, program_id()) is None
                &&& *final(ctx) == transfer_token_outcome(*old(ctx), amount)
                &&& done.0 == transfer_token_order(*old(ctx), amount)
                &&& done.1 == transfer_token_event(*old(ctx), amount)
            },
            Err(error) => {
                &&& transfer_token_failure(*old(ctx), amount, program_id()) == Some(error)
                &&& *final(ctx) == *old(ctx)
            },
        },
{
    let program = id();
    transfer_token_handler(ctx, amount, &program)
}

/// The instruction that moves native value out of a vault of this program.
pub fn transfer_sol(ctx: &mut TransferSol, amount: u64) -> (result: Result<
    TransferEvent,
    LockFundEscrowError,
>)
    ensures
        match result {
            Ok(event) => {
                &&& transfer_sol_failure(*old(ctx), amount, program_id()) is None
                &&& *final(ctx) == transfer_sol_outcome(*old(ctx), amount)
                &&& event == transfer_sol_event(*old(ctx), amount)
            },
            Err(error) => {
                &&& transfer_sol_failure(*old(ctx), amount, program_id()) == Some(error)
                &&& *final(ctx) == *old(ctx)
            },
        },
{
    let program = id();
    transfer_sol_handler(ctx, amount, &program)
}

} // verus!
