//! The actions of the command line, and what the sealing actions compute.

use vstd::prelude::*;
use sha2::Digest;
use crate::cli::cipher::{
    aad_view, decrypt, encrypt, opened, result_view, sealed_with_nonce, CipherError, NONCE_LEN,
};

verus! {

/// One request of the command line.
#[derive(Debug)]
pub enum Action {
    InitConfig,
    Get,
    SetConfig { rpc_url: Option<String>, authority_path: Option<String>, approver_path: Option<String> },
    EscrowConfig { config_account: Option<String> },
    InitEscrow { recipient: String },
    Encrypt { private_key: String, password: String },
    Decrypt { encrypted: String, password: String },
}

/// The SHA-256 digest of the UTF-8 bytes of a text.
pub uninterp spec fn sha256_digest(text: Seq<char>) -> Seq<u8>;

/// Turns a password of any length into the 32 bytes that key the cipher.
///
/// Calls `Sha256::new`, `update` and `finalize` of sha2. Trusted: the 32 bytes
/// are a function of the text alone.
#[verifier::external_body]
pub fn hash_to_32_bytes(input: &str) -> (digest: [u8; 32])
    ensures
        digest@ == sha256_digest(input@),
{
    let mut hasher = sha2::Sha256::new();
    hasher.update(input);
    hasher.finalize().into()
}

/// Seals the bytes of a private key under a password of any length: the key of
/// the cipher is the digest of the password, and no associated data is bound.
pub fn encrypt_with_password(private_key: &[u8], password: &str) -> (result: Result<
    Vec<u8>,
    CipherError,
>)
    ensures
        exists|nonce: Seq<u8>|
            nonce.len() == NONCE_LEN && result_view(result) == #[trigger] sealed_with_nonce(
                private_key@,
                sha256_digest(password@),
                Seq::empty(),
                nonce,
            ),
{
    let key = hash_to_32_bytes(password);
    let no_aad: Option<&[u8]> = None;
    assert(aad_view(no_aad) == Seq::<u8>::empty());
    encrypt(private_key, key.as_slice(), no_aad)
}

/// Opens what `encrypt_with_password` gave under the same password. Data
/// shorter than a nonce was never sealed and is refused.
pub fn decrypt_with_password(encrypted: &[u8], password: &str) -> (result: Result<
    Vec<u8>,
    CipherError,
>)
    ensures
        encrypted@.len() < NONCE_LEN ==> result_view(result) == Err::<Seq<u8>, CipherError>(
            CipherError::Decrypt,
        ),
        encrypted@.len() >= NONCE_LEN ==> result_view(result) == opened(
            encrypted@,
            sha256_digest(password@),
            Seq::empty(),
        ),
{
    if encrypted.len() < NONCE_LEN {
        return Err(CipherError::Decrypt);
    }
    let key = hash_to_32_bytes(password);
    let no_aad: Option<&[u8]> = None;
    assert(aad_view(no_aad) == Seq::<u8>::empty());
    decrypt(encrypted, key.as_slice(), no_aad)
}

} // verus!
