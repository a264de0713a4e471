//! What both transfers check before any value moves: the fixed recipient, dual
//! control, and the vault with the program's capability to sign for it.

use vstd::prelude::*;
use crate::derivation::{address_view, reconstruct_signing_address, signing_address};
use crate::errors::LockFundEscrowError;
use crate::pubkey::Pubkey;
use crate::state::accounts::{AccountLoader, Signer};
use crate::state::config_account::ConfigAccount;

verus! {

/// Dual control: both parties signed, and each is the key that the config
/// account binds to its role.
pub open spec fn dual_control(config: ConfigAccount, authority: Signer, approver: Signer) -> bool {
    &&& authority.is_signer
    &&& approver.is_signer
    &&& authority.key == config.authority
    &&& approver.key == config.approver
}

/// Whether the program can sign for the vault of a config account with the
/// seeds that the account stores. It can for every account that the creating
/// instruction wrote.
pub open spec fn holds_signing_seeds(config: ConfigAccount, program_id: Pubkey) -> bool {
    signing_address(config.authority@, config.escrow_bump, program_id@) == Some(config.escrow@)
}

/// The address for which the program can sign with the seeds stored at the
/// place of a config account, if an account is there and its seeds give one.
pub open spec fn stored_signing_address(config_account: AccountLoader, program_id: Pubkey) -> Option<
    Seq<u8>,
> {
    match config_account.data {
        Some(config) => signing_address(config.authority@, config.escrow_bump, program_id@),
        None => None,
    }
}

/// The condition that denies a transfer, the first that applies, or `None`
/// where the transfer is authorised, given the address for which the program
/// can sign.
pub open spec fn transfer_denial_with(
    config_account: AccountLoader,
    escrow: Pubkey,
    recipient: Pubkey,
    authority: Signer,
    approver: Signer,
    signing: Option<Seq<u8>>,
) -> Option<LockFundEscrowError> {
    match config_account.data {
        None => Some(LockFundEscrowError::AccountNotInitialized),
        Some(config) => {
            if recipient != config.recipient {
                Some(LockFundEscrowError::InvalidRecipient)
            } else if !dual_control(config, authority, approver) {
                Some(LockFundEscrowError::Unauthorize)
            } else if escrow != config.escrow {
                Some(LockFundEscrowError::InvalidEscrow)
            } else if signing != Some(escrow@) {
                Some(LockFundEscrowError::InvalidEscrow)
            } else {
                None
            }
        },
    }
}

/// The condition that denies a transfer under a program, the first that
/// applies, or `None` where the transfer is authorised.
pub open spec fn transfer_denial(
    config_account: AccountLoader,
    escrow: Pubkey,
    recipient: Pubkey,
    authority: Signer,
    approver: Signer,
    program_id: Pubkey,
) -> Option<LockFundEscrowError> {
    transfer_denial_with(
        config_account,
        escrow,
        recipient,
        authority,
        approver,
        stored_signing_address(config_account, program_id),
    )
}

/// Rebuilds the address for which the program can sign with the seeds stored
/// at the place of a config account.
pub fn signing_address_of(config_account: &AccountLoader, program_id: &Pubkey) -> (signing: Option<Pubkey>)
    ensures
        address_view(signing) == stored_signing_address(*config_account, *program_id),
{
    match config_account.data {
        Some(config) => reconstruct_signing_address(&config, program_id),
        None => None,
    }
}

/// Decides whether a transfer out of `escrow` to `recipient` is authorised,
/// given the address for which the program can sign.
pub fn authorize_transfer_with(
    config_account: &AccountLoader,
    escrow: &Pubkey,
    recipient: &Pubkey,
    authority: &Signer,
    approver: &Signer,
    signing: Option<Pubkey>,
) -> (result: Result<(), LockFundEscrowError>)
    ensures
        match result {
            Ok(_) => transfer_denial_with(
                *config_account,
                *escrow,
                *recipient,
                *authority,
                *approver,
                address_view(signing),
            ) is None,
            Err(error) => transfer_denial_with(
                *config_account,
                *escrow,
                *recipient,
                *authority,
                *approver,
                address_view(signing),
            ) == Some(error),
        },
{
    let config = match config_account.data {
        Some(config) => config,
        None => {
            return Err(LockFundEscrowError::AccountNotInitialized);
        },
    };
    if !recipient.key_eq(&config.recipient) {
        return Err(LockFundEscrowError::InvalidRecipient);
    }
    if !authority.is_signer || !approver.is_signer || !authority.key.key_eq(&config.authority)
        || !approver.key.key_eq(&config.approver) {
        return Err(LockFundEscrowError::Unauthorize);
    }
    if !escrow.key_eq(&config.escrow) {
        return Err(LockFundEscrowError::InvalidEscrow);
    }
    match signing {
        Some(address) => {
            if address.key_eq(escrow) {
                Ok(())
            } else {
                Err(LockFundEscrowError::InvalidEscrow)
            }
        },
        None => Err(LockFundEscrowError::InvalidEscrow),
    }
}

/// Decides whether a transfer out of `escrow` to `recipient` is authorised
/// under a program.
pub fn authorize_transfer(
    config_account: &AccountLoader,
    escrow: &Pubkey,
    recipient: &Pubkey,
    authority: &Signer,
    approver: &Signer,
    program_id: &Pubkey,
) -> (result: Result<(), LockFundEscrowError>)
    ensures
        match result {
            Ok(_) => transfer_denial(
                *config_account,
                *escrow,
                *recipient,
                *authority,
                *approver,
                *program_id,
            ) is None,
            Err(error) => transfer_denial(
                *config_account,
                *escrow,
                *recipient,
                *authority,
                *approver,
                *program_id,
            ) == Some(error),
        },
{
    let signing = signing_address_of(config_account, program_id);
    authorize_transfer_with(config_account, escrow, recipient, authority, approver, signing)
}

/// Only the two signatures together move value: without the authority's
/// signature or without the approver's a transfer is denied, whatever else
/// holds, and one that is authorised bears both, each from the party that the
/// config account names.
pub proof fn lemma_transfer_needs_both_signatures(
    config_account: AccountLoader,
    escrow: Pubkey,
    recipient: Pubkey,
    authority: Signer,
    approver: Signer,
    signing: Option<Seq<u8>>,
)
    ensures
        !authority.is_signer || !approver.is_signer ==> transfer_denial_with(
            config_account,
            escrow,
            recipient,
            authority,
            approver,
            signing,
        ) is Some,
        transfer_denial_with(config_account, escrow, recipient, authority, approver, signing) is None
            ==> (config_account.data matches Some(config) && dual_control(
            config,
            authority,
            approver,
        )),
{
}

/// A transfer to any address but the recipient fixed at creation is denied as
/// an invalid recipient, whoever signed.
pub proof fn lemma_wrong_recipient_is_refused(
    config_account: AccountLoader,
    escrow: Pubkey,
    recipient: Pubkey,
    authority: Signer,
    approver: Signer,
    signing: Option<Seq<u8>>,
)
    requires
        config_account.data matches Some(config) && recipient != config.recipient,
    ensures
        transfer_denial_with(config_account, escrow, recipient, authority, approver, signing) == Some(
            LockFundEscrowError::InvalidRecipient,
        ),
{
}

/// The two signatures together suffice: for a config account that holds its
/// signing seeds, a transfer out of its vault to its recipient, signed by its
/// authority and its approver, is authorised.
pub proof fn lemma_both_signatures_suffice(
    config_account: AccountLoader,
    authority: Signer,
    approver: Signer,
    program_id: Pubkey,
)
    requires
        config_account.data matches Some(config) && dual_control(config, authority, approver)
            && holds_signing_seeds(config, program_id),
    ensures
        transfer_denial(
            config_account,
            config_account.data.unwrap().escrow,
            config_account.data.unwrap().recipient,
            authority,
            approver,
            program_id,
        ) is None,
{
}

} // verus!
