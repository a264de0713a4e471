//! The named conditions under which an instruction fails.

use vstd::prelude::*;
use vstd::string::StringExecFns;

verus! {

/// Why an instruction failed. A failed instruction changes nothing.
#[derive(Clone, Copy, Debug, PartialEq, Eq, Structural)]
pub enum LockFundEscrowError {
    /// A required signature is missing, or a signer is not the party that the
    /// config account binds to its role.
    Unauthorize,
    /// Authority and approver are the same key.
    DuplicatePubkey,
    /// The vault supplied is not the one that the config account governs.
    InvalidEscrow,
    /// The destination supplied is not the recipient fixed at creation.
    InvalidRecipient,
    /// An account already exists at a derived address.
    AccountAlreadyExists,
    /// The paying balance is smaller than the amount asked for.
    InsufficientFunds,
    /// A supplied address is not the one derived from its seeds.
    InvalidSeeds,
    /// No config account exists at the address supplied.
    AccountNotInitialized,
    /// The token program supplied implements neither token interface.
    InvalidProgramId,
    /// A token account or the token program does not belong to the mint.
    MintMismatch,
    /// A time or a balance would not fit in 64 bits without a sign.
    ArithmeticOverflow,
}

impl LockFundEscrowError {
    /// The text shown for the error.
    pub open spec fn spec_message(self) -> Seq<char> {
        match self {
            LockFundEscrowError::Unauthorize => "unauthorize for this action"@,
            LockFundEscrowError::DuplicatePubkey => "Two pubkey can not duplicate"@,
            LockFundEscrowError::InvalidEscrow => "invalid escrow"@,
            LockFundEscrowError::InvalidRecipient => "invalid Recipient"@,
            LockFundEscrowError::AccountAlreadyExists => "account already exists"@,
            LockFundEscrowError::InsufficientFunds => "insufficient funds"@,
            LockFundEscrowError::InvalidSeeds => "address does not match its seeds"@,
            LockFundEscrowError::AccountNotInitialized => "account not initialized"@,
            LockFundEscrowError::InvalidProgramId => "invalid token program"@,
            LockFundEscrowError::MintMismatch => "mint mismatch"@,
            LockFundEscrowError::ArithmeticOverflow => "arithmetic overflow"@,
        }
    }

    /// The text shown for the error.
    pub fn message(&self) -> (text: String)
        ensures
            text@ == self.spec_message(),
    {
        match self {
            LockFundEscrowError::Unauthorize => String::from_str("unauthorize for this action"),
            LockFundEscrowError::DuplicatePubkey => String::from_str("Two pubkey can not duplicate"),
            LockFundEscrowError::InvalidEscrow => String::from_str("invalid escrow"),
            LockFundEscrowError::InvalidRecipient => String::from_str("invalid Recipient"),
            LockFundEscrowError::AccountAlreadyExists => String::from_str("account already exists"),
            LockFundEscrowError::InsufficientFunds => String::from_str("insufficient funds"),
            LockFundEscrowError::InvalidSeeds => String::from_str("address does not match its seeds"),
            LockFundEscrowError::AccountNotInitialized => String::from_str("account not initialized"),
            LockFundEscrowError::InvalidProgramId => String::from_str("invalid token program"),
            LockFundEscrowError::MintMismatch => String::from_str("mint mismatch"),
            LockFundEscrowError::ArithmeticOverflow => String::from_str("arithmetic overflow"),
        }
    }

    /// The number under which the ledger reports the four conditions that the
    /// program itself names; the others are reported by the ledger under
    /// numbers of its own.
    pub fn code(&self) -> (code: Option<u32>)
        ensures
            code == match *self {
                LockFundEscrowError::Unauthorize => Some(6000u32),
                LockFundEscrowError::DuplicatePubkey => Some(6001u32),
                LockFundEscrowError::InvalidEscrow => Some(6002u32),
                LockFundEscrowError::InvalidRecipient => Some(6003u32),
                _ => None,
            },
    {
        match self {
            LockFundEscrowError::Unauthorize => Some(6000),
            LockFundEscrowError::DuplicatePubkey => Some(6001),
            LockFundEscrowError::InvalidEscrow => Some(6002),
            LockFundEscrowError::InvalidRecipient => Some(6003),
            _ => None,
        }
    }
}

} // verus!
