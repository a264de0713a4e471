//! Ledger addresses as plain 32-byte values.

use vstd::prelude::*;

verus! {

/// The base-58 text of a sequence of bytes.
pub uninterp spec fn base58_text(bytes: Seq<u8>) -> Seq<char>;

/// The 32 bytes that a text stands for as an address, if it stands for one.
pub uninterp spec fn pubkey_from_text(text: Seq<char>) -> Option<Seq<u8>>;

/// Calls `bs58::encode` and `into_string` of bs58. Trusted: the text is a
/// function of the bytes alone.
#[verifier::external_body]
fn encode_base58(bytes: &[u8]) -> (text: String)
    ensures
        text@ == base58_text(bytes@),
{
    bs58::encode(bytes).into_string()
}

/// Calls `Pubkey::from_str` of solana-program, as anchor-lang hands it on.
/// Trusted: whether the text stands for an address, and for which, is a
/// function of the text alone; the outside error is given as `None`.
#[verifier::external_body]
fn parse_address(text: &str) -> (bytes: Option<[u8; 32]>)
    ensures
        match bytes {
            Some(bytes) => pubkey_from_text(text@) == Some(bytes@),
            None => pubkey_from_text(text@) is None,
        },
{
    match text.parse::<anchor_lang::prelude::Pubkey>() {
        Ok(key) => Some(key.to_bytes()),
        Err(_) => None,
    }
}

/// A 32-byte ledger address. Its view is the sequence of its bytes.
#[derive(Clone, Copy, Debug, PartialEq, Eq, Hash)]
pub struct Pubkey {
    pub bytes: [u8; 32],
}

impl View for Pubkey {
    type V = Seq<u8>;

    open spec fn view(&self) -> Seq<u8> {
        self.bytes@
    }
}

impl Pubkey {
    /// The address made of the given bytes.
    pub fn new_from_array(bytes: [u8; 32]) -> (key: Pubkey)
        ensures
            key.bytes == bytes,
            key@ == bytes@,
    {
        Pubkey { bytes }
    }

    /// The bytes of the address.
    pub fn to_bytes(&self) -> (bytes: [u8; 32])
        ensures
            bytes == self.bytes,
    {
        self.bytes
    }

    /// The bytes of the address as a vector.
    pub fn to_vec(&self) -> (out: Vec<u8>)
        ensures
            out@ == self@,
    {
        let mut out: Vec<u8> = Vec::new();
        let mut i: usize = 0;
        while i < 32
            invariant
                i <= 32,
                out@ == self@.subrange(0, i as int),
            decreases 32 - i,
        {
            out.push(self.bytes[i]);
            i += 1;
        }
        assert(self@.subrange(0, 32) == self@);
        out
    }

    /// The address that a text stands for, if it stands for one.
    pub fn from_text(text: &str) -> (key: Option<Pubkey>)
        ensures
            match key {
                Some(key) => pubkey_from_text(text@) == Some(key@),
                None => pubkey_from_text(text@) is None,
            },
    {
        match parse_address(text) {
            Some(bytes) => Some(Pubkey { bytes }),
            None => None,
        }
    }

    /// The address as base-58 text.
    pub fn to_base58(&self) -> (text: String)
        ensures
            text@ == base58_text(self@),
    {
        encode_base58(self.bytes.as_slice())
    }

    /// Whether two addresses are the same, byte for byte.
    pub fn key_eq(&self, other: &Pubkey) -> (same: bool)
        ensures
            same == (*self == *other),
            same == (self@ == other@),
    {
        let mut i: usize = 0;
        while i < 32
            invariant
                i <= 32,
                forall|j: int| 0 <= j < i ==> self.bytes[j] == other.bytes[j],
            decreases 32 - i,
        {
            if self.bytes[i] != other.bytes[i] {
                return false;
            }
            i += 1;
        }
        assert(self.bytes =~= other.bytes);
        true
    }
}

} // verus!
