//! Creating a lock: the config account and its vault, once per authority.

use vstd::prelude::*;
use crate::derivation::{
    config_address, derived_view, escrow_address, find_config_address, find_escrow_address,
    is_derived,
};
use crate::instructions::authorize::holds_signing_seeds;
use crate::errors::LockFundEscrowError;
use crate::event::CreateConfigEvent;
use crate::pubkey::Pubkey;
use crate::state::accounts::{AccountInfo, AccountLoader, Clock, Signer};
use crate::state::config_account::{ConfigAccount, CreateConfigParams, ZERO_PADDING};

verus! {

/// The accounts of the instruction that creates a lock.
#[derive(Clone, Copy, Debug, PartialEq, Eq)]
pub struct CreateConfig {
    /// Creator of the lock, who signs and pays for the storage.
    pub authority: Signer,
    /// Where the config account is to be created.
    pub config_account: AccountLoader,
    /// Where the vault is to be created.
    pub escrow: AccountInfo,
    /// The address that value will leave to.
    pub recipient: Pubkey,
    /// The second party of every transfer.
    pub approver: Pubkey,
}

/// The condition that makes the instruction fail, the first that applies, or
/// `None` where it succeeds, given what derivation found for the vault of the
/// authority and for the config account of the vault supplied. `rent` is the
/// deposit that the ledger takes from the payer for the storage of both
/// accounts.
pub open spec fn create_config_failure_with(
    ctx: CreateConfig,
    params: CreateConfigParams,
    clock: Clock,
    rent: u64,
    escrow_at: Option<(Seq<u8>, u8)>,
    config_account_at: Option<(Seq<u8>, u8)>,
) -> Option<LockFundEscrowError> {
    if ctx.authority.key == ctx.approver {
        Some(LockFundEscrowError::DuplicatePubkey)
    } else if !ctx.authority.is_signer {
        Some(LockFundEscrowError::Unauthorize)
    } else if !is_derived(escrow_at, ctx.escrow.key) {
        Some(LockFundEscrowError::InvalidSeeds)
    } else if !is_derived(config_account_at, ctx.config_account.key) {
        Some(LockFundEscrowError::InvalidSeeds)
    } else if ctx.config_account.data is Some || ctx.escrow.in_use {
        Some(LockFundEscrowError::AccountAlreadyExists)
    } else if ctx.authority.lamports < rent {
        Some(LockFundEscrowError::InsufficientFunds)
    } else if clock.unix_timestamp + params.cliff_time_duration < 0 || clock.unix_timestamp
        + params.cliff_time_duration > u64::MAX {
        Some(LockFundEscrowError::ArithmeticOverflow)
    } else {
        None
    }
}

/// The condition that makes the instruction fail under a program, the first
/// that applies, or `None` where it succeeds.
pub open spec fn create_config_failure(
    ctx: CreateConfig,
    params: CreateConfigParams,
    clock: Clock,
    rent: u64,
    program_id: Pubkey,
) -> Option<LockFundEscrowError> {
    create_config_failure_with(
        ctx,
        params,
        clock,
        rent,
        escrow_address(ctx.authority.key@, program_id@),
        config_address(ctx.escrow.key@, program_id@),
    )
}

/// The record that the instruction writes, given the two disambiguation bytes.
pub open spec fn created_config_with(
    ctx: CreateConfig,
    params: CreateConfigParams,
    clock: Clock,
    config_bump: u8,
    escrow_bump: u8,
) -> ConfigAccount {
    ConfigAccount {
        authority: ctx.authority.key,
        approver: ctx.approver,
        recipient: ctx.recipient,
        escrow: ctx.escrow.key,
        cliff_time: (clock.unix_timestamp + params.cliff_time_duration) as u64,
        amount_per_day: params.amount_per_day,
        update_actor_mode: params.update_actor_mode,
        enable_transfer_full: params.enable_transfer_full,
        config_bump,
        escrow_bump,
        padding_0: ZERO_PADDING,
    }
}

/// The record that the instruction writes under a program.
pub open spec fn created_config(
    ctx: CreateConfig,
    params: CreateConfigParams,
    clock: Clock,
    program_id: Pubkey,
) -> ConfigAccount {
    created_config_with(
        ctx,
        params,
        clock,
        config_address(ctx.escrow.key@, program_id@).unwrap().1,
        escrow_address(ctx.authority.key@, program_id@).unwrap().1,
    )
}

/// The accounts after the instruction succeeded and wrote `created`: the payer
/// has paid the deposit, the config account holds its record, and the vault
/// exists with the balance that its address had.
pub open spec fn create_config_outcome_with(ctx: CreateConfig, rent: u64, created: ConfigAccount) -> CreateConfig {
    CreateConfig {
        authority: Signer { lamports: (ctx.authority.lamports - rent) as u64, ..ctx.authority },
        config_account: AccountLoader { data: Some(created), ..ctx.config_account },
        escrow: AccountInfo { in_use: true, ..ctx.escrow },
        ..ctx
    }
}

/// The accounts after the instruction succeeded under a program.
pub open spec fn create_config_outcome(
    ctx: CreateConfig,
    params: CreateConfigParams,
    clock: Clock,
    rent: u64,
    program_id: Pubkey,
) -> CreateConfig {
    create_config_outcome_with(ctx, rent, created_config(ctx, params, clock, program_id))
}

/// The event that the instruction logs.
pub open spec fn create_config_event(ctx: CreateConfig, params: CreateConfigParams) -> CreateConfigEvent {
    CreateConfigEvent {
        authority: ctx.authority.key,
        approver: ctx.approver,
        recipient: ctx.recipient,
        cliff_time_duration: params.cliff_time_duration,
        amount_per_day: params.amount_per_day,
        update_actor_mode: params.update_actor_mode,
        enable_transfer_full: params.enable_transfer_full,
    }
}

/// Creates the config account and the vault of an authority, given what
/// derivation found for the two addresses, and gives the event to log. It
/// fails with the first condition of `create_config_failure_with` that
/// applies, and then changes nothing.
pub fn create_config_with(
    ctx: &mut CreateConfig,
    params: &CreateConfigParams,
    clock: &Clock,
    rent: u64,
    escrow_at: Option<(Pubkey, u8)>,
    config_account_at: Option<(Pubkey, u8)>,
) -> (result: Result<CreateConfigEvent, LockFundEscrowError>)
    ensures
        match result {
            Ok(event) => {
                &&& create_config_failure_with(
                    *old(ctx),
                    *params,
                    *clock,
                    rent,
                    derived_view(escrow_at),
                    derived_view(config_account_at),
                ) is None
                &&& *final(ctx) == create_config_outcome_with(
                    *old(ctx),
                    rent,
                    created_config_with(
                        *old(ctx),
                        *params,
                        *clock,
                        config_account_at.unwrap().1,
                        escrow_at.unwrap().1,
                    ),
                )
                &&& event == create_config_event(*old(ctx), *params)
            },
            Err(error) => {
                &&& create_config_failure_with(
                    *old(ctx),
                    *params,
                    *clock,
                    rent,
                    derived_view(escrow_at),
                    derived_view(config_account_at),
                ) == Some(error)
                &&& *final(ctx) == *old(ctx)
            },
        },
{
    if ctx.authority.key.key_eq(&ctx.approver) {
        return Err(LockFundEscrowError::DuplicatePubkey);
    }
    if !ctx.authority.is_signer {
        return Err(LockFundEscrowError::Unauthorize);
    }
    let escrow_bump: u8 = match escrow_at {
        Some((address, bump)) => {
            if !address.key_eq(&ctx.escrow.key) {
                return Err(LockFundEscrowError::InvalidSeeds);
            }
            bump
        },
        None => {
            return Err(LockFundEscrowError::InvalidSeeds);
        },
    };
    let config_bump: u8 = match config_account_at {
        Some((address, bump)) => {
            if !address.key_eq(&ctx.config_account.key) {
                return Err(LockFundEscrowError::InvalidSeeds);
            }
            bump
        },
        None => {
            return Err(LockFundEscrowError::InvalidSeeds);
        },
    };
    if ctx.config_account.data.is_some() || ctx.escrow.in_use {
        return Err(LockFundEscrowError::AccountAlreadyExists);
    }
    if ctx.authority.lamports < rent {
        return Err(LockFundEscrowError::InsufficientFunds);
    }
    let cliff_time: i128 = clock.unix_timestamp as i128 + params.cliff_time_duration as i128;
    if cliff_time < 0 || cliff_time > u64::MAX as i128 {
        return Err(LockFundEscrowError::ArithmeticOverflow);
    }
    let mut account = ConfigAccount::zeroed();
    let filled = params.init_config(
        &mut account,
        ctx.authority.key,
        ctx.approver,
        ctx.recipient,
        ctx.escrow.key,
        params.cliff_time_duration,
        params.amount_per_day,
        params.update_actor_mode,
        params.enable_transfer_full,
        config_bump,
        escrow_bump,
        clock.unix_timestamp,
    );
    match filled {
        Ok(()) => {
            ctx.authority.lamports = ctx.authority.lamports - rent;
            ctx.config_account.data = Some(account);
            ctx.escrow.in_use = true;
            Ok(
                CreateConfigEvent {
                    authority: ctx.authority.key,
                    approver: ctx.approver,
                    recipient: ctx.recipient,
                    cliff_time_duration: params.cliff_time_duration,
                    amount_per_day: params.amount_per_day,
                    update_actor_mode: params.update_actor_mode,
                    enable_transfer_full: params.enable_transfer_full,
                },
            )
        },
        Err(error) => Err(error),
    }
}

/// Creates the config account and the vault of an authority at the addresses
/// derived under a program, and gives the event to log. It fails with the
/// first condition of `create_config_failure` that applies, and then changes
/// nothing.
pub fn create_config_handler(
    ctx: &mut CreateConfig,
    params: &CreateConfigParams,
    clock: &Clock,
    rent: u64,
    program_id: &Pubkey,
) -> (result: Result<CreateConfigEvent, LockFundEscrowError>)
    ensures
        match result {
            Ok(event) => {
                &&& create_config_failure(*old(ctx), *params, *clock, rent, *program_id) is None
                &&& *final(ctx) == create_config_outcome(*old(ctx), *params, *clock, rent, *program_id)
                &&& event == create_config_event(*old(ctx), *params)
            },
            Err(error) => {
                &&& create_config_failure(*old(ctx), *params, *clock, rent, *program_id) == Some(error)
                &&& *final(ctx) == *old(ctx)
            },
        },
        old(ctx).authority.key == old(ctx).approver ==> result == Err::<
            CreateConfigEvent,
            LockFundEscrowError,
        >(LockFundEscrowError::DuplicatePubkey),
        result is Ok ==> final(ctx).config_account.data.unwrap().cliff_time == clock.unix_timestamp
            + params.cliff_time_duration,
        result is Ok ==> holds_signing_seeds(final(ctx).config_account.data.unwrap(), *program_id),
        result is Ok ==> final(ctx).config_account.data.unwrap().well_formed(),
{
    let escrow_at = find_escrow_address(&ctx.authority.key, program_id);
    let config_account_at = find_config_address(&ctx.escrow.key, program_id);
    create_config_with(ctx, params, clock, rent, escrow_at, config_account_at)
}

/// A lock is created once: where authority and approver differ, the authority
/// signs, the addresses supplied are the derived ones, neither holds an account
/// yet, the payer can pay the deposit and the time gate is a time that 64 bits
/// without a sign can hold, the instruction succeeds; and whoever then asks again with the same authority,
/// for the accounts that the first call left, is refused because the accounts
/// exist, whatever else the second call chooses.
pub proof fn lemma_create_config_succeeds_once(
    ctx: CreateConfig,
    params: CreateConfigParams,
    clock: Clock,
    rent: u64,
    escrow_at: Option<(Seq<u8>, u8)>,
    config_account_at: Option<(Seq<u8>, u8)>,
    again: CreateConfig,
    params_again: CreateConfigParams,
    clock_again: Clock,
    rent_again: u64,
)
    requires
        ctx.authority.key != ctx.approver,
        ctx.authority.is_signer,
        is_derived(escrow_at, ctx.escrow.key),
        is_derived(config_account_at, ctx.config_account.key),
        ctx.config_account.data is None,
        !ctx.escrow.in_use,
        rent <= ctx.authority.lamports,
        0 <= clock.unix_timestamp + params.cliff_time_duration <= u64::MAX,
        again.authority.key == ctx.authority.key,
        again.authority.is_signer,
        again.authority.key != again.approver,
        again.escrow.key == ctx.escrow.key,
        again.escrow.in_use,
        again.config_account == create_config_outcome_with(
            ctx,
            rent,
            created_config_with(
                ctx,
                params,
                clock,
                config_account_at.unwrap().1,
                escrow_at.unwrap().1,
            ),
        ).config_account,
    ensures
        create_config_failure_with(ctx, params, clock, rent, escrow_at, config_account_at) is None,
        create_config_failure_with(
            again,
            params_again,
            clock_again,
            rent_again,
            escrow_at,
            config_account_at,
        ) == Some(LockFundEscrowError::AccountAlreadyExists),
{
}

/// With one key as authority and approver the instruction fails as a
/// duplicate, whatever else holds, and no account is created.
pub proof fn lemma_duplicate_key_is_refused(
    ctx: CreateConfig,
    params: CreateConfigParams,
    clock: Clock,
    rent: u64,
    escrow_at: Option<(Seq<u8>, u8)>,
    config_account_at: Option<(Seq<u8>, u8)>,
)
    requires
        ctx.authority.key == ctx.approver,
    ensures
        create_config_failure_with(ctx, params, clock, rent, escrow_at, config_account_at) == Some(
            LockFundEscrowError::DuplicatePubkey,
        ),
{
}

/// The time gate of a created lock is the time of creation plus the duration
/// asked for, and the authority and the approver of a created lock are two keys.
pub proof fn lemma_cliff_time_is_creation_plus_duration(
    ctx: CreateConfig,
    params: CreateConfigParams,
    clock: Clock,
    rent: u64,
    escrow_at: Option<(Seq<u8>, u8)>,
    config_account_at: Option<(Seq<u8>, u8)>,
)
    requires
        create_config_failure_with(ctx, params, clock, rent, escrow_at, config_account_at) is None,
    ensures
        created_config_with(
            ctx,
            params,
            clock,
            config_account_at.unwrap().1,
            escrow_at.unwrap().1,
        ).cliff_time == clock.unix_timestamp + params.cliff_time_duration,
        created_config_with(
            ctx,
            params,
            clock,
            config_account_at.unwrap().1,
            escrow_at.unwrap().1,
        ).well_formed(),
{
}

} // verus!
