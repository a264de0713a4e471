//! Moving native value out of a vault.

use vstd::prelude::*;
use crate::derivation::address_view;
use crate::errors::LockFundEscrowError;
use crate::event::TransferEvent;
use crate::instructions::authorize::{
    authorize_transfer_with, dual_control, holds_signing_seeds, signing_address_of,
    stored_signing_address, transfer_denial_with,
};
use crate::pubkey::Pubkey;
use crate::state::accounts::{AccountInfo, AccountLoader, Signer};

verus! {

/// The accounts of the instruction that moves native value.
#[derive(Clone, Copy, Debug, PartialEq, Eq)]
pub struct TransferSol {
    /// The config account that governs the vault.
    pub config_account: AccountLoader,
    /// The vault that pays.
    pub escrow: AccountInfo,
    /// The account that receives.
    pub recipient: AccountInfo,
    pub authority: Signer,
    pub approver: Signer,
}

/// Why a movement of native value between two accounts fails, if it does.
pub open spec fn native_transfer_failure(from: AccountInfo, to: AccountInfo, amount: u64) -> Option<
    LockFundEscrowError,
> {
    if from.lamports < amount {
        Some(LockFundEscrowError::InsufficientFunds)
    } else if from.key != to.key && to.lamports + amount > u64::MAX {
        Some(LockFundEscrowError::ArithmeticOverflow)
    } else {
        None
    }
}

/// Moves native value from one account to another. Between two places of one
/// account nothing changes.
pub fn transfer_lamports(from: &mut AccountInfo, to: &mut AccountInfo, amount: u64) -> (result: Result<
    (),
    LockFundEscrowError,
>)
    ensures
        match result {
            Ok(_) => {
                &&& native_transfer_failure(*old(from), *old(to), amount) is None
                &&& old(from).key == old(to).key ==> *final(from) == *old(from) && *final(to)
                    == *old(to)
                &&& old(from).key != old(to).key ==> *final(from) == (AccountInfo {
                    lamports: (old(from).lamports - amount) as u64,
                    ..*old(from)
                }) && *final(to) == (AccountInfo {
                    lamports: (old(to).lamports + amount) as u64,
                    ..*old(to)
                })
            },
            Err(error) => {
                &&& native_transfer_failure(*old(from), *old(to), amount) == Some(error)
                &&& *final(from) == *old(from)
                &&& *final(to) == *old(to)
            },
        },
{
    if from.lamports < amount {
        return Err(LockFundEscrowError::InsufficientFunds);
    }
    if from.key.key_eq(&to.key) {
        return Ok(());
    }
    if to.lamports > u64::MAX - amount {
        return Err(LockFundEscrowError::ArithmeticOverflow);
    }
    from.lamports = from.lamports - amount;
    to.lamports = to.lamports + amount;
    Ok(())
}

/// The condition that makes the instruction fail, the first that applies, or
/// `None` where it succeeds, given the address for which the program can sign.
pub open spec fn transfer_sol_failure_with(ctx: TransferSol, amount: u64, signing: Option<Seq<u8>>) -> Option<
    LockFundEscrowError,
> {
    match transfer_denial_with(
        ctx.config_account,
        ctx.escrow.key,
        ctx.recipient.key,
        ctx.authority,
        ctx.approver,
        signing,
    ) {
        Some(error) => Some(error),
        None => native_transfer_failure(ctx.escrow, ctx.recipient, amount),
    }
}

/// The condition that makes the instruction fail under a program, the first
/// that applies, or `None` where it succeeds.
pub open spec fn transfer_sol_failure(ctx: TransferSol, amount: u64, program_id: Pubkey) -> Option<
    LockFundEscrowError,
> {
    transfer_sol_failure_with(ctx, amount, stored_signing_address(ctx.config_account, program_id))
}

/// The accounts after the instruction succeeded.
pub open spec fn transfer_sol_outcome(ctx: TransferSol, amount: u64) -> TransferSol {
    if ctx.escrow.key == ctx.recipient.key {
        ctx
    } else {
        TransferSol {
            escrow: AccountInfo { lamports: (ctx.escrow.lamports - amount) as u64, ..ctx.escrow },
            recipient: AccountInfo {
                lamports: (ctx.recipient.lamports + amount) as u64,
                ..ctx.recipient
            },
            ..ctx
        }
    }
}

/// The event that the instruction logs.
pub open spec fn transfer_sol_event(ctx: TransferSol, amount: u64) -> TransferEvent {
    TransferEvent {
        from: ctx.escrow.key,
        to: ctx.recipient.key,
        config_account: ctx.config_account.key,
        amount,
    }
}

/// Moves `amount` of native value from the vault to the recipient, given the
/// address for which the program can sign, and gives the event to log. It
/// fails with the first condition of `transfer_sol_failure_with` that applies,
/// and then changes nothing.
pub fn transfer_sol_with(ctx: &mut TransferSol, amount: u64, signing: Option<Pubkey>) -> (result: Result<
    TransferEvent,
    LockFundEscrowError,
>)
    ensures
        match result {
            Ok(event) => {
                &&& transfer_sol_failure_with(*old(ctx), amount, address_view(signing)) is None
                &&& *final(ctx) == transfer_sol_outcome(*old(ctx), amount)
                &&& event == transfer_sol_event(*old(ctx), amount)
            },
            Err(error) => {
                &&& transfer_sol_failure_with(*old(ctx), amount, address_view(signing)) == Some(error)
                &&& *final(ctx) == *old(ctx)
            },
        },
{
    match authorize_transfer_with(
        &ctx.config_account,
        &ctx.escrow.key,
        &ctx.recipient.key,
        &ctx.authority,
        &ctx.approver,
        signing,
    ) {
        Ok(_) => {},
        Err(error) => {
            return Err(error);
        },
    }
    match transfer_lamports(&mut ctx.escrow, &mut ctx.recipient, amount) {
        Ok(_) => {},
        Err(error) => {
            return Err(error);
        },
    }
    Ok(
        TransferEvent {
            from: ctx.escrow.key,
            to: ctx.recipient.key,
            config_account: ctx.config_account.key,
            amount,
        },
    )
}

/// Moves `amount` of native value from the vault to the recipient and gives
/// the event to log. It fails with the first condition of
/// `transfer_sol_failure` that applies, and then changes nothing. The time gate
/// and the daily ceiling of the config account are not consulted, and the
/// config account is never changed.
pub fn transfer_sol_handler(ctx: &mut TransferSol, amount: u64, program_id: &Pubkey) -> (result: Result<
    TransferEvent,
    LockFundEscrowError,
>)
    ensures
        match result {
            Ok(event) => {
                &&& transfer_sol_failure(*old(ctx), amount, *program_id) is None
                &&& *final(ctx) == transfer_sol_outcome(*old(ctx), amount)
                &&& event == transfer_sol_event(*old(ctx), amount)
            },
            Err(error) => {
                &&& transfer_sol_failure(*old(ctx), amount, *program_id) == Some(error)
                &&& *final(ctx) == *old(ctx)
            },
        },
        result is Ok ==> old(ctx).authority.is_signer && old(ctx).approver.is_signer,
        old(ctx).config_account.data matches Some(config) && old(ctx).recipient.key
            != config.recipient ==> result == Err::<TransferEvent, LockFundEscrowError>(
            LockFundEscrowError::InvalidRecipient,
        ),
        amount > old(ctx).escrow.lamports ==> result is Err && *final(ctx) == *old(ctx),
        final(ctx).config_account == old(ctx).config_account,
{
    let signing = signing_address_of(&ctx.config_account, program_id);
    transfer_sol_with(ctx, amount, signing)
}

/// Without both signatures no native value moves.
pub proof fn lemma_transfer_sol_needs_both_signatures(
    ctx: TransferSol,
    amount: u64,
    signing: Option<Seq<u8>>,
)
    ensures
        !ctx.authority.is_signer || !ctx.approver.is_signer ==> transfer_sol_failure_with(
            ctx,
            amount,
            signing,
        ) is Some,
        transfer_sol_failure_with(ctx, amount, signing) is None ==> (
        ctx.config_account.data matches Some(config) && dual_control(
            config,
            ctx.authority,
            ctx.approver,
        )),
{
}

/// Native value leaves to no address but the recipient fixed at creation,
/// whoever signed.
pub proof fn lemma_transfer_sol_wrong_recipient(ctx: TransferSol, amount: u64, signing: Option<Seq<u8>>)
    requires
        ctx.config_account.data matches Some(config) && ctx.recipient.key != config.recipient,
    ensures
        transfer_sol_failure_with(ctx, amount, signing) == Some(
            LockFundEscrowError::InvalidRecipient,
        ),
{
}

/// A transfer of more native value than the vault holds fails.
pub proof fn lemma_transfer_sol_overdraw(ctx: TransferSol, amount: u64, signing: Option<Seq<u8>>)
    requires
        amount > ctx.escrow.lamports,
    ensures
        transfer_sol_failure_with(ctx, amount, signing) is Some,
{
}

/// No transfer creates, closes or rewrites an account: after one that
/// succeeded the config account is what it was, and vault and recipient are
/// the accounts they were, with at most their balances changed.
pub proof fn lemma_transfer_sol_keeps_accounts(ctx: TransferSol, amount: u64)
    ensures
        transfer_sol_outcome(ctx, amount).config_account == ctx.config_account,
        transfer_sol_outcome(ctx, amount).escrow.key == ctx.escrow.key,
        transfer_sol_outcome(ctx, amount).escrow.in_use == ctx.escrow.in_use,
        transfer_sol_outcome(ctx, amount).recipient.key == ctx.recipient.key,
        transfer_sol_outcome(ctx, amount).recipient.in_use == ctx.recipient.in_use,
        transfer_sol_outcome(ctx, amount).authority == ctx.authority,
        transfer_sol_outcome(ctx, amount).approver == ctx.approver,
{
}

/// A lock pays out: from the vault of a config account that holds its signing
/// seeds, an amount that the vault holds and the recipient's balance can take
/// reaches the recipient when authority and approver both sign; the two
/// balances change by exactly that amount, and their sum does not change.
pub proof fn lemma_transfer_sol_pays_out(ctx: TransferSol, amount: u64, program_id: Pubkey)
    requires
        ctx.config_account.data matches Some(config) && dual_control(
            config,
            ctx.authority,
            ctx.approver,
        ) && holds_signing_seeds(config, program_id) && ctx.escrow.key == config.escrow
            && ctx.recipient.key == config.recipient,
        amount <= ctx.escrow.lamports,
        ctx.recipient.lamports + amount <= u64::MAX,
        ctx.escrow.key != ctx.recipient.key,
    ensures
        transfer_sol_failure(ctx, amount, program_id) is None,
        transfer_sol_outcome(ctx, amount).escrow.lamports == ctx.escrow.lamports - amount,
        transfer_sol_outcome(ctx, amount).recipient.lamports == ctx.recipient.lamports + amount,
        transfer_sol_outcome(ctx, amount).escrow.lamports + transfer_sol_outcome(
            ctx,
            amount,
        ).recipient.lamports == ctx.escrow.lamports + ctx.recipient.lamports,
{
}

} // verus!
