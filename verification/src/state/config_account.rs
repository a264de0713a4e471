//! The config account: the record that describes one lock.

use vstd::prelude::*;
use crate::errors::LockFundEscrowError;
use crate::pubkey::Pubkey;

verus! {

/// The key whose bytes are all zero.
pub const ZERO_KEY: [u8; 32] = [
    0, 0, 0, 0, 0, 0, 0, 0, 0, 0, 0, 0, 0, 0, 0, 0,
    0, 0, 0, 0, 0, 0, 0, 0, 0, 0, 0, 0, 0, 0, 0, 0,
];

/// The reserved bytes of a record.
pub const ZERO_PADDING: [u8; 12] = [0, 0, 0, 0, 0, 0, 0, 0, 0, 0, 0, 0];

/// The actors that may ask for a later change of a config account, as bits of
/// `update_actor_mode`.
#[derive(Clone, Copy, Debug, PartialEq, Eq, Structural)]
pub enum UpdateActorMode {
    NoActor,
    Authority,
    Approver,
    Recipient,
}

impl UpdateActorMode {
    /// The bit that stands for the actor.
    pub open spec fn spec_bits(self) -> u8 {
        match self {
            UpdateActorMode::NoActor => 0,
            UpdateActorMode::Authority => 1,
            UpdateActorMode::Approver => 2,
            UpdateActorMode::Recipient => 4,
        }
    }

    /// The bit that stands for the actor.
    pub fn bits(&self) -> (bits: u8)
        ensures
            bits == self.spec_bits(),
    {
        match self {
            UpdateActorMode::NoActor => 0,
            UpdateActorMode::Authority => 1,
            UpdateActorMode::Approver => 2,
            UpdateActorMode::Recipient => 4,
        }
    }
}

/// The record of one lock. Every field is set once, at creation; the time gate,
/// the daily ceiling and the two policy fields are stored and read by no
/// instruction.
#[derive(Clone, Copy, Debug, PartialEq, Eq)]
pub struct ConfigAccount {
    /// Creator of the lock.
    pub authority: Pubkey,
    /// Second party whose signature every transfer needs.
    pub approver: Pubkey,
    /// The only address that value may leave to.
    pub recipient: Pubkey,
    /// Address of the vault.
    pub escrow: Pubkey,
    /// Time, in Unix seconds, after which withdrawal is meant to be allowed.
    pub cliff_time: u64,
    /// Ceiling on withdrawals per day.
    pub amount_per_day: u64,
    /// Bits of the actors that may ask for a change.
    pub update_actor_mode: u8,
    /// 1: allow, 0: deny.
    pub enable_transfer_full: u8,
    /// Disambiguation byte of the config account's address.
    pub config_bump: u8,
    /// Disambiguation byte of the vault's address.
    pub escrow_bump: u8,
    /// Reserved.
    pub padding_0: [u8; 12],
}

impl ConfigAccount {
    /// Bytes that the record takes in storage.
    pub const INIT_SPACE: usize = 160;

    /// What holds of every record that an instruction wrote: authority and
    /// approver are two keys.
    pub open spec fn well_formed(self) -> bool {
        self.authority != self.approver
    }

    /// A record with every byte zero, as storage is when it is allocated.
    pub open spec fn spec_zeroed() -> ConfigAccount {
        ConfigAccount {
            authority: Pubkey { bytes: ZERO_KEY },
            approver: Pubkey { bytes: ZERO_KEY },
            recipient: Pubkey { bytes: ZERO_KEY },
            escrow: Pubkey { bytes: ZERO_KEY },
            cliff_time: 0,
            amount_per_day: 0,
            update_actor_mode: 0,
            enable_transfer_full: 0,
            config_bump: 0,
            escrow_bump: 0,
            padding_0: ZERO_PADDING,
        }
    }

    /// A record with every byte zero, as storage is when it is allocated.
    pub fn zeroed() -> (account: ConfigAccount)
        ensures
            account == ConfigAccount::spec_zeroed(),
    {
        let zero = Pubkey::new_from_array(ZERO_KEY);
        ConfigAccount {
            authority: zero,
            approver: zero,
            recipient: zero,
            escrow: zero,
            cliff_time: 0,
            amount_per_day: 0,
            update_actor_mode: 0,
            enable_transfer_full: 0,
            config_bump: 0,
            escrow_bump: 0,
            padding_0: ZERO_PADDING,
        }
    }

    /// Sets every field but the reserved bytes.
    pub fn init(
        &mut self,
        authority: Pubkey,
        approver: Pubkey,
        recipient: Pubkey,
        escrow: Pubkey,
        cliff_time: u64,
        amount_per_day: u64,
        update_actor_mode: u8,
        enable_transfer_full: u8,
        config_bump: u8,
        escrow_bump: u8,
    )
        ensures
            *final(self) == (ConfigAccount {
                authority,
                approver,
                recipient,
                escrow,
                cliff_time,
                amount_per_day,
                update_actor_mode,
                enable_transfer_full,
                config_bump,
                escrow_bump,
                padding_0: old(self).padding_0,
            }),
    {
        self.authority = authority;
        self.approver = approver;
        self.recipient = recipient;
        self.cliff_time = cliff_time;
        self.amount_per_day = amount_per_day;
        self.update_actor_mode = update_actor_mode;
        self.enable_transfer_full = enable_transfer_full;
        self.escrow = escrow;
        self.config_bump = config_bump;
        self.escrow_bump = escrow_bump;
    }
}

/// What the creator of a lock chooses.
#[derive(Clone, Copy, Debug, PartialEq, Eq)]
pub struct CreateConfigParams {
    pub cliff_time_duration: u64,
    pub amount_per_day: u64,
    pub update_actor_mode: u8,
    pub enable_transfer_full: u8,
}

impl CreateConfigParams {
    /// Accepts every choice: none of the four values is constrained.
    pub fn validate_params(&self) -> (result: Result<(), LockFundEscrowError>)
        ensures
            result is Ok,
    {
        Ok(())
    }

    /// Fills a freshly allocated record. Fails, and leaves the record as it
    /// was, exactly when authority and approver are the same key. The time gate
    /// is the time of creation plus the duration asked for, which has to be a
    /// time that 64 bits without a sign can hold.
    pub fn init_config(
        &self,
        config_account: &mut ConfigAccount,
        authority: Pubkey,
        approver: Pubkey,
        recipient: Pubkey,
        escrow_vault: Pubkey,
        cliff_time_duration: u64,
        amount_per_day: u64,
        update_actor_mode: u8,
        enable_transfer_full: u8,
        escrow_bump: u8,
        escrow_vault_bump: u8,
        unix_timestamp: i64,
    ) -> (result: Result<(), LockFundEscrowError>)
        requires
            0 <= unix_timestamp + cliff_time_duration <= u64::MAX,
        ensures
            authority == approver ==> result == Err::<(), LockFundEscrowError>(
                LockFundEscrowError::DuplicatePubkey,
            ) && *final(config_account) == *old(config_account),
            authority != approver ==> result is Ok && *final(config_account) == (ConfigAccount {
                authority,
                approver,
                recipient,
                escrow: escrow_vault,
                cliff_time: (unix_timestamp + cliff_time_duration) as u64,
                amount_per_day,
                update_actor_mode,
                enable_transfer_full,
                config_bump: escrow_bump,
                escrow_bump: escrow_vault_bump,
                padding_0: old(config_account).padding_0,
            }),
            result is Ok ==> final(config_account).well_formed(),
    {
        let _ = self.validate_params();
        if authority.key_eq(&approver) {
            return Err(LockFundEscrowError::DuplicatePubkey);
        }
        let cliff_time: u64 = (unix_timestamp as i128 + cliff_time_duration as i128) as u64;
        config_account.init(
            authority,
            approver,
            recipient,
            escrow_vault,
            cliff_time,
            amount_per_day,
            update_actor_mode,
            enable_transfer_full,
            escrow_bump,
            escrow_vault_bump,
        );
        Ok(())
    }
}

} // verus!
