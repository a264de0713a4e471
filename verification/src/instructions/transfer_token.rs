//! Moving tokens out of the token-holding account of a vault.

use vstd::prelude::*;
use crate::constants::{TOKEN_2022_PROGRAM_ID, TOKEN_PROGRAM_ID};
use crate::derivation::{
    address_view, associated_token_address, derived_view, find_associated_token_address,
    is_derived,
};
use crate::errors::LockFundEscrowError;
use crate::event::TransferEvent;
use crate::instructions::authorize::{
    authorize_transfer_with, dual_control, holds_signing_seeds, signing_address_of,
    stored_signing_address, transfer_denial_with,
};
use crate::pubkey::Pubkey;
use crate::state::accounts::{AccountLoader, Mint, Signer, TokenAccount};

verus! {

/// The two interfaces under which a token program moves tokens.
#[derive(Clone, Copy, Debug, PartialEq, Eq, Structural)]
pub enum TokenInterface {
    /// The legacy token program.
    Legacy,
    /// The extended token program.
    Extended,
}

/// The accounts of the instruction that moves tokens.
#[derive(Clone, Copy, Debug, PartialEq, Eq)]
pub struct TransferToken {
    /// The config account that governs the vault.
    pub config_account: AccountLoader,
    /// The vault, in whose name the tokens move.
    pub escrow: Pubkey,
    /// The token-holding account of the vault, which pays.
    pub escrow_token: TokenAccount,
    /// The token-holding account of the recipient, which receives.
    pub recipient_token: TokenAccount,
    /// The recipient.
    pub recipient: Pubkey,
    /// The mint of the tokens.
    pub mint_token: Mint,
    pub authority: Signer,
    pub approver: Signer,
    /// The token program that is to move the tokens.
    pub token_program: Pubkey,
}

/// The order that the instruction gives to the token program.
#[derive(Clone, Copy, Debug, PartialEq, Eq)]
pub struct TransferChecked {
    /// The interface under which the order is given.
    pub interface: TokenInterface,
    pub from: Pubkey,
    pub mint: Pubkey,
    pub to: Pubkey,
    /// The vault, for which the program signs.
    pub authority: Pubkey,
    pub amount: u64,
    /// The decimals of the mint, which the token program checks.
    pub decimals: u8,
}

/// The interface that a token program implements, chosen by its address.
pub open spec fn spec_token_interface(token_program: Pubkey) -> Option<TokenInterface> {
    if token_program.bytes == TOKEN_PROGRAM_ID {
        Some(TokenInterface::Legacy)
    } else if token_program.bytes == TOKEN_2022_PROGRAM_ID {
        Some(TokenInterface::Extended)
    } else {
        None
    }
}

/// The interface that a token program implements, chosen by its address.
pub fn token_interface(token_program: &Pubkey) -> (interface: Option<TokenInterface>)
    ensures
        interface == spec_token_interface(*token_program),
{
    let legacy = Pubkey::new_from_array(TOKEN_PROGRAM_ID);
    let extended = Pubkey::new_from_array(TOKEN_2022_PROGRAM_ID);
    if token_program.key_eq(&legacy) {
        Some(TokenInterface::Legacy)
    } else if token_program.key_eq(&extended) {
        Some(TokenInterface::Extended)
    } else {
        None
    }
}

/// Whether `account` belongs to `wallet` and lies at the address derived for
/// the wallet's token-holding account.
pub open spec fn is_token_account_at(
    account: TokenAccount,
    wallet: Pubkey,
    derived: Option<(Seq<u8>, u8)>,
) -> bool {
    &&& account.owner == wallet
    &&& is_derived(derived, account.key)
}

/// Whether `account` is the token-holding account of `wallet` under `mint`:
/// it belongs to the wallet and lies at the address derived for the two.
pub open spec fn is_token_account_of(
    account: TokenAccount,
    wallet: Pubkey,
    mint: Pubkey,
    token_program: Pubkey,
) -> bool {
    is_token_account_at(account, wallet, associated_token_address(wallet@, mint@, token_program@))
}

/// Decides whether `account` belongs to `wallet` and lies at the address
/// derived for the wallet's token-holding account.
pub fn check_token_account(account: &TokenAccount, wallet: &Pubkey, derived: Option<(Pubkey, u8)>) -> (valid: bool)
    ensures
        valid == is_token_account_at(*account, *wallet, derived_view(derived)),
{
    if !account.owner.key_eq(wallet) {
        return false;
    }
    match derived {
        Some((address, _)) => address.key_eq(&account.key),
        None => false,
    }
}

/// Why a checked movement of tokens between two accounts fails, if it does.
pub open spec fn token_transfer_failure(
    from: TokenAccount,
    mint: Mint,
    to: TokenAccount,
    amount: u64,
    decimals: u8,
) -> Option<LockFundEscrowError> {
    if from.mint != mint.key || to.mint != mint.key || decimals != mint.decimals {
        Some(LockFundEscrowError::MintMismatch)
    } else if from.amount < amount {
        Some(LockFundEscrowError::InsufficientFunds)
    } else if from.key != to.key && to.amount + amount > u64::MAX {
        Some(LockFundEscrowError::ArithmeticOverflow)
    } else {
        None
    }
}

/// Moves tokens of `mint` from one token-holding account to another, after
/// checking that both hold tokens of that mint and that `decimals` is the
/// mint's. Between two places of one account nothing changes.
pub fn transfer_checked(
    from: &mut TokenAccount,
    mint: &Mint,
    to: &mut TokenAccount,
    amount: u64,
    decimals: u8,
) -> (result: Result<(), LockFundEscrowError>)
    ensures
        match result {
            Ok(_) => {
                &&& token_transfer_failure(*old(from), *mint, *old(to), amount, decimals) is None
                &&& old(from).key == old(to).key ==> *final(from) == *old(from) && *final(to)
                    == *old(to)
                &&& old(from).key != old(to).key ==> *final(from) == (TokenAccount {
                    amount: (old(from).amount - amount) as u64,
                    ..*old(from)
                }) && *final(to) == (TokenAccount {
                    amount: (old(to).amount + amount) as u64,
                    ..*old(to)
                })
            },
            Err(error) => {
                &&& token_transfer_failure(*old(from), *mint, *old(to), amount, decimals) == Some(
                    error,
                )
                &&& *final(from) == *old(from)
                &&& *final(to) == *old(to)
            },
        },
{
    if !from.mint.key_eq(&mint.key) || !to.mint.key_eq(&mint.key) || decimals != mint.decimals {
        return Err(LockFundEscrowError::MintMismatch);
    }
    if from.amount < amount {
        return Err(LockFundEscrowError::InsufficientFunds);
    }
    if from.key.key_eq(&to.key) {
        return Ok(());
    }
    if to.amount > u64::MAX - amount {
        return Err(LockFundEscrowError::ArithmeticOverflow);
    }
    from.amount = from.amount - amount;
    to.amount = to.amount + amount;
    Ok(())
}

/// The condition that makes the instruction fail, the first that applies, or
/// `None` where it succeeds, given the address for which the program can sign
/// and the addresses derived for the two token-holding accounts.
pub open spec fn transfer_token_failure_with(
    ctx: TransferToken,
    amount: u64,
    signing: Option<Seq<u8>>,
    escrow_token_at: Option<(Seq<u8>, u8)>,
    recipient_token_at: Option<(Seq<u8>, u8)>,
) -> Option<LockFundEscrowError> {
    match transfer_denial_with(
        ctx.config_account,
        ctx.escrow,
        ctx.recipient,
        ctx.authority,
        ctx.approver,
        signing,
    ) {
        Some(error) => Some(error),
        None => {
            if spec_token_interface(ctx.token_program) is None {
                Some(LockFundEscrowError::InvalidProgramId)
            } else if ctx.mint_token.owner != ctx.token_program {
                Some(LockFundEscrowError::MintMismatch)
            } else if !is_token_account_at(ctx.escrow_token, ctx.escrow, escrow_token_at) {
                Some(LockFundEscrowError::InvalidEscrow)
            } else if !is_token_account_at(ctx.recipient_token, ctx.recipient, recipient_token_at) {
                Some(LockFundEscrowError::InvalidRecipient)
            } else {
                token_transfer_failure(
                    ctx.escrow_token,
                    ctx.mint_token,
                    ctx.recipient_token,
                    amount,
                    ctx.mint_token.decimals,
                )
            }
        },
    }
}

/// The condition that makes the instruction fail under a program, the first
/// that applies, or `None` where it succeeds.
pub open spec fn transfer_token_failure(ctx: TransferToken, amount: u64, program_id: Pubkey) -> Option<
    LockFundEscrowError,
> {
    transfer_token_failure_with(
        ctx,
        amount,
        stored_signing_address(ctx.config_account, program_id),
        associated_token_address(ctx.escrow@, ctx.mint_token.key@, ctx.token_program@),
        associated_token_address(ctx.recipient@, ctx.mint_token.key@, ctx.token_program@),
    )
}

/// The accounts after the instruction succeeded.
pub open spec fn transfer_token_outcome(ctx: TransferToken, amount: u64) -> TransferToken {
    if ctx.escrow_token.key == ctx.recipient_token.key {
        ctx
    } else {
        TransferToken {
            escrow_token: TokenAccount {
                amount: (ctx.escrow_token.amount - amount) as u64,
                ..ctx.escrow_token
            },
            recipient_token: TokenAccount {
                amount: (ctx.recipient_token.amount + amount) as u64,
                ..ctx.recipient_token
            },
            ..ctx
        }
    }
}

/// The order that the instruction gives to the token program.
pub open spec fn transfer_token_order(ctx: TransferToken, amount: u64) -> TransferChecked {
    TransferChecked {
        interface: spec_token_interface(ctx.token_program).unwrap(),
        from: ctx.escrow_token.key,
        mint: ctx.mint_token.key,
        to: ctx.recipient_token.key,
        authority: ctx.escrow,
        amount,
        decimals: ctx.mint_token.decimals,
    }
}

/// The event that the instruction logs.
pub open spec fn transfer_token_event(ctx: TransferToken, amount: u64) -> TransferEvent {
    TransferEvent {
        from: ctx.escrow_token.key,
        to: ctx.recipient_token.key,
        config_account: ctx.config_account.key,
        amount,
    }
}

/// Moves `amount` of tokens from the vault's token-holding account to the
/// recipient's, given the address for which the program can sign and the
/// addresses derived for the two accounts, and gives the order placed with the
/// token program and the event to log. It fails with the first condition of
/// `transfer_token_failure_with` that applies, and then changes nothing.
pub fn transfer_token_with(
    ctx: &mut TransferToken,
    amount: u64,
    signing: Option<Pubkey>,
    escrow_token_at: Option<(Pubkey, u8)>,
    recipient_token_at: Option<(Pubkey, u8)>,
) -> (result: Result<(TransferChecked, TransferEvent), LockFundEscrowError>)
    ensures
        match result {
            Ok(done) => {
                &&& transfer_token_failure_with(
                    *old(ctx),
                    amount,
                    address_view(signing),
                    derived_view(escrow_token_at),
                    derived_view(recipient_token_at),
                ) is None
                &&& *final(ctx) == transfer_token_outcome(*old(ctx), amount)
                &&& done.0 == transfer_token_order(*old(ctx), amount)
                &&& done.1 == transfer_token_event(*old(ctx), amount)
            },
            Err(error) => {
                &&& transfer_token_failure_with(
                    *old(ctx),
                    amount,
                    address_view(signing),
                    derived_view(escrow_token_at),
                    derived_view(recipient_token_at),
                ) == Some(error)
                &&& *final(ctx) == *old(ctx)
            },
        },
{
    match authorize_transfer_with(
        &ctx.config_account,
        &ctx.escrow,
        &ctx.recipient,
        &ctx.authority,
        &ctx.approver,
        signing,
    ) {
        Ok(_) => {},
        Err(error) => {
            return Err(error);
        },
    }
    let interface = match token_interface(&ctx.token_program) {
        Some(interface) => interface,
        None => {
            return Err(LockFundEscrowError::InvalidProgramId);
        },
    };
    if !ctx.mint_token.owner.key_eq(&ctx.token_program) {
        return Err(LockFundEscrowError::MintMismatch);
    }
    if !check_token_account(&ctx.escrow_token, &ctx.escrow, escrow_token_at) {
        return Err(LockFundEscrowError::InvalidEscrow);
    }
    if !check_token_account(&ctx.recipient_token, &ctx.recipient, recipient_token_at) {
        return Err(LockFundEscrowError::InvalidRecipient);
    }
    let decimals: u8 = ctx.mint_token.decimals;
    let mint = ctx.mint_token;
    match transfer_checked(&mut ctx.escrow_token, &mint, &mut ctx.recipient_token, amount, decimals) {
        Ok(_) => {},
        Err(error) => {
            return Err(error);
        },
    }
    let order = TransferChecked {
        interface,
        from: ctx.escrow_token.key,
        mint: ctx.mint_token.key,
        to: ctx.recipient_token.key,
        authority: ctx.escrow,
        amount,
        decimals,
    };
    let event = TransferEvent {
        from: ctx.escrow_token.key,
        to: ctx.recipient_token.key,
        config_account: ctx.config_account.key,
        amount,
    };
    Ok((order, event))
}

/// Moves `amount` of tokens from the vault's token-holding account to the
/// recipient's, and gives the order placed with the token program and the
/// event to log. It fails with the first condition of
/// `transfer_token_failure` that applies, and then changes nothing. The time
/// gate and the daily ceiling of the config account are not consulted, and the
/// config account is never changed.
pub fn transfer_token_handler(ctx: &mut TransferToken, amount: u64, program_id: &Pubkey) -> (result: Result<
    (TransferChecked, TransferEvent),
    LockFundEscrowError,
>)
    ensures
        match result {
            Ok(done) => {
                &&& transfer_token_failure(*old(ctx), amount, *program_id) is None
                &&& *final(ctx) == transfer_token_outcome(*old(ctx), amount)
                &&& done.0 == transfer_token_order(*old(ctx), amount)
                &&& done.1 == transfer_token_event(*old(ctx), amount)
            },
            Err(error) => {
                &&& transfer_token_failure(*old(ctx), amount, *program_id) == Some(error)
                &&& *final(ctx) == *old(ctx)
            },
        },
        result is Ok ==> old(ctx).authority.is_signer && old(ctx).approver.is_signer,
        old(ctx).config_account.data matches Some(config) && old(ctx).recipient != config.recipient
            ==> result == Err::<(TransferChecked, TransferEvent), LockFundEscrowError>(
            LockFundEscrowError::InvalidRecipient,
        ),
        amount > old(ctx).escrow_token.amount ==> result is Err && *final(ctx) == *old(ctx),
        final(ctx).config_account == old(ctx).config_account,
{
    let signing = signing_address_of(&ctx.config_account, program_id);
    let escrow_token_at = find_associated_token_address(
        &ctx.escrow,
        &ctx.mint_token.key,
        &ctx.token_program,
    );
    let recipient_token_at = find_associated_token_address(
        &ctx.recipient,
        &ctx.mint_token.key,
        &ctx.token_program,
    );
    transfer_token_with(ctx, amount, signing, escrow_token_at, recipient_token_at)
}

/// Without both signatures no token moves.
pub proof fn lemma_transfer_token_needs_both_signatures(
    ctx: TransferToken,
    amount: u64,
    signing: Option<Seq<u8>>,
    escrow_token_at: Option<(Seq<u8>, u8)>,
    recipient_token_at: Option<(Seq<u8>, u8)>,
)
    ensures
        !ctx.authority.is_signer || !ctx.approver.is_signer ==> transfer_token_failure_with(
            ctx,
            amount,
            signing,
            escrow_token_at,
            recipient_token_at,
        ) is Some,
        transfer_token_failure_with(ctx, amount, signing, escrow_token_at, recipient_token_at) is None
            ==> (ctx.config_account.data matches Some(config) && dual_control(
            config,
            ctx.authority,
            ctx.approver,
        )),
{
}

/// Tokens leave to no wallet but the recipient fixed at creation, whoever signed.
pub proof fn lemma_transfer_token_wrong_recipient(
    ctx: TransferToken,
    amount: u64,
    signing: Option<Seq<u8>>,
    escrow_token_at: Option<(Seq<u8>, u8)>,
    recipient_token_at: Option<(Seq<u8>, u8)>,
)
    requires
        ctx.config_account.data matches Some(config) && ctx.recipient != config.recipient,
    ensures
        transfer_token_failure_with(ctx, amount, signing, escrow_token_at, recipient_token_at)
            == Some(LockFundEscrowError::InvalidRecipient),
{
}

/// A transfer of more tokens than the vault's account holds fails.
pub proof fn lemma_transfer_token_overdraw(
    ctx: TransferToken,
    amount: u64,
    signing: Option<Seq<u8>>,
    escrow_token_at: Option<(Seq<u8>, u8)>,
    recipient_token_at: Option<(Seq<u8>, u8)>,
)
    requires
        amount > ctx.escrow_token.amount,
    ensures
        transfer_token_failure_with(ctx, amount, signing, escrow_token_at, recipient_token_at) is Some,
{
}

/// No transfer of tokens creates, closes or rewrites an account: after one
/// that succeeded the config account and the mint are what they were, and the
/// two token-holding accounts are the accounts they were, with at most their
/// balances changed.
pub proof fn lemma_transfer_token_keeps_accounts(ctx: TransferToken, amount: u64)
    ensures
        transfer_token_outcome(ctx, amount).config_account == ctx.config_account,
        transfer_token_outcome(ctx, amount).mint_token == ctx.mint_token,
        transfer_token_outcome(ctx, amount).escrow_token.key == ctx.escrow_token.key,
        transfer_token_outcome(ctx, amount).escrow_token.owner == ctx.escrow_token.owner,
        transfer_token_outcome(ctx, amount).escrow_token.mint == ctx.escrow_token.mint,
        transfer_token_outcome(ctx, amount).recipient_token.key == ctx.recipient_token.key,
        transfer_token_outcome(ctx, amount).recipient_token.owner == ctx.recipient_token.owner,
        transfer_token_outcome(ctx, amount).recipient_token.mint == ctx.recipient_token.mint,
{
}

/// A lock pays out in tokens: for a config account that holds its signing
/// seeds, with the token-holding accounts of its vault and its recipient under
/// a mint of the token program supplied, an amount that the vault's account
/// holds and the recipient's can take moves when authority and approver both
/// sign; the two balances change by exactly that amount, and their sum does
/// not change.
pub proof fn lemma_transfer_token_pays_out(ctx: TransferToken, amount: u64, program_id: Pubkey)
    requires
        ctx.config_account.data matches Some(config) && dual_control(
            config,
            ctx.authority,
            ctx.approver,
        ) && holds_signing_seeds(config, program_id) && ctx.escrow == config.escrow
            && ctx.recipient == config.recipient,
        spec_token_interface(ctx.token_program) is Some,
        ctx.mint_token.owner == ctx.token_program,
        ctx.escrow_token.mint == ctx.mint_token.key,
        ctx.recipient_token.mint == ctx.mint_token.key,
        is_token_account_of(ctx.escrow_token, ctx.escrow, ctx.mint_token.key, ctx.token_program),
        is_token_account_of(
            ctx.recipient_token,
            ctx.recipient,
            ctx.mint_token.key,
            ctx.token_program,
        ),
        amount <= ctx.escrow_token.amount,
        ctx.recipient_token.amount + amount <= u64::MAX,
        ctx.escrow_token.key != ctx.recipient_token.key,
    ensures
        transfer_token_failure(ctx, amount, program_id) is None,
        transfer_token_outcome(ctx, amount).escrow_token.amount == ctx.escrow_token.amount - amount,
        transfer_token_outcome(ctx, amount).recipient_token.amount == ctx.recipient_token.amount
            + amount,
        transfer_token_outcome(ctx, amount).escrow_token.amount + transfer_token_outcome(
            ctx,
            amount,
        ).recipient_token.amount == ctx.escrow_token.amount + ctx.recipient_token.amount,
{
}

} // verus!
