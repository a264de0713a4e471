//! Sealing a private key: a 12-byte nonce, then the ciphertext with its tag.

use vstd::prelude::*;
use vstd::slice::slice_subrange;
use aes_gcm::aead::{Aead, AeadCore, KeyInit};

verus! {

/// Length of the key of the cipher, in bytes.
pub const KEY_LEN: usize = 32;

/// Length of the nonce that precedes the ciphertext, in bytes.
pub const NONCE_LEN: usize = 12;

/// Why sealing or opening failed.
#[derive(Clone, Copy, Debug, PartialEq, Eq, Structural)]
pub enum CipherError {
    /// The cipher refused to seal the data.
    Encrypt,
    /// The data is not what was sealed under this password and this
    /// associated data.
    Decrypt,
}

impl CipherError {
    /// The text shown for the error.
    pub fn message(&self) -> (text: String)
        ensures
            text@ == match *self {
                CipherError::Encrypt => "Failed to encrypt data"@,
                CipherError::Decrypt => "Failed to decrypt data"@,
            },
    {
        match self {
            CipherError::Encrypt => "Failed to encrypt data".to_owned(),
            CipherError::Decrypt => "Failed to decrypt data".to_owned(),
        }
    }
}

/// The ciphertext, tag included, that AES-256-GCM gives for a message under a
/// key, a nonce and associated data, if it gives one.
pub uninterp spec fn aes256_gcm_sealed(key: Seq<u8>, nonce: Seq<u8>, message: Seq<u8>, aad: Seq<u8>) -> Option<Seq<u8>>;

/// The message that AES-256-GCM recovers from a ciphertext under a key, a
/// nonce and associated data, if the tag is right.
pub uninterp spec fn aes256_gcm_opened(key: Seq<u8>, nonce: Seq<u8>, sealed: Seq<u8>, aad: Seq<u8>) -> Option<Seq<u8>>;

/// The bytes of a vector, if there is one.
pub open spec fn bytes_view(bytes: Option<Vec<u8>>) -> Option<Seq<u8>> {
    match bytes {
        Some(bytes) => Some(bytes@),
        None => None,
    }
}

/// The associated data that stands for an absent one: none at all.
pub open spec fn aad_view(aad: Option<&[u8]>) -> Seq<u8> {
    match aad {
        Some(aad) => aad@,
        None => Seq::empty(),
    }
}

/// Calls `Aes256Gcm::generate_nonce` of aes-gcm with the operating system's
/// random source. Trusted: the nonce has 12 bytes; nothing else is known of it.
#[verifier::external_body]
fn generate_nonce() -> (nonce: Vec<u8>)
    ensures
        nonce@.len() == NONCE_LEN,
{
    aes_gcm::Aes256Gcm::generate_nonce(&mut aes_gcm::aead::OsRng).to_vec()
}

/// Calls `Aes256Gcm::encrypt` of aes-gcm. Trusted: the result is a function of
/// key, nonce, message and associated data alone; the outside error is given
/// as `None`.
#[verifier::external_body]
fn seal(key: &[u8], nonce: &[u8], message: &[u8], aad: &[u8]) -> (sealed: Option<Vec<u8>>)
    requires
        key@.len() == KEY_LEN,
        nonce@.len() == NONCE_LEN,
    ensures
        bytes_view(sealed) == aes256_gcm_sealed(key@, nonce@, message@, aad@),
{
    let cipher = aes_gcm::Aes256Gcm::new(aes_gcm::aead::generic_array::GenericArray::from_slice(key));
    let nonce = aes_gcm::aead::generic_array::GenericArray::from_slice(nonce);
    match cipher.encrypt(nonce, aes_gcm::aead::Payload { msg: message, aad }) {
        Ok(sealed) => Some(sealed),
        Err(_) => None,
    }
}

/// Calls `Aes256Gcm::decrypt` of aes-gcm. Trusted: the result is a function of
/// key, nonce, ciphertext and associated data alone; the outside error is
/// given as `None`.
#[verifier::external_body]
fn open(key: &[u8], nonce: &[u8], sealed: &[u8], aad: &[u8]) -> (message: Option<Vec<u8>>)
    requires
        key@.len() == KEY_LEN,
        nonce@.len() == NONCE_LEN,
    ensures
        bytes_view(message) == aes256_gcm_opened(key@, nonce@, sealed@, aad@),
{
    let cipher = aes_gcm::Aes256Gcm::new(aes_gcm::aead::generic_array::GenericArray::from_slice(key));
    let nonce = aes_gcm::aead::generic_array::GenericArray::from_slice(nonce);
    match cipher.decrypt(nonce, aes_gcm::aead::Payload { msg: sealed, aad }) {
        Ok(message) => Some(message),
        Err(_) => None,
    }
}

/// What sealing under a given nonce returns: the nonce followed by the
/// ciphertext, or the error where the cipher gives none.
pub open spec fn sealed_with_nonce(
    private_key: Seq<u8>,
    password: Seq<u8>,
    aad: Seq<u8>,
    nonce: Seq<u8>,
) -> Result<Seq<u8>, CipherError> {
    match aes256_gcm_sealed(password, nonce, private_key, aad) {
        Some(sealed) => Ok(nonce + sealed),
        None => Err(CipherError::Encrypt),
    }
}

/// What opening returns: the message under the nonce that the first 12 bytes
/// hold, or the error where the rest is not its ciphertext.
pub open spec fn opened(encrypted: Seq<u8>, password: Seq<u8>, aad: Seq<u8>) -> Result<
    Seq<u8>,
    CipherError,
> {
    match aes256_gcm_opened(
        password,
        encrypted.subrange(0, NONCE_LEN as int),
        encrypted.subrange(NONCE_LEN as int, encrypted.len() as int),
        aad,
    ) {
        Some(message) => Ok(message),
        None => Err(CipherError::Decrypt),
    }
}

/// A result that holds bytes, as plain values.
pub open spec fn result_view(result: Result<Vec<u8>, CipherError>) -> Result<Seq<u8>, CipherError> {
    match result {
        Ok(bytes) => Ok(bytes@),
        Err(error) => Err(error),
    }
}

/// Frames what the cipher gave for a nonce: the nonce, then the ciphertext.
pub fn frame(nonce: &[u8], sealed: Option<Vec<u8>>) -> (result: Result<Vec<u8>, CipherError>)
    ensures
        result_view(result) == match sealed {
            Some(sealed) => Ok::<Seq<u8>, CipherError>(nonce@ + sealed@),
            None => Err::<Seq<u8>, CipherError>(CipherError::Encrypt),
        },
{
    match sealed {
        Some(sealed) => {
            let mut out: Vec<u8> = Vec::new();
            let mut i: usize = 0;
            while i < nonce.len()
                invariant
                    i <= nonce@.len(),
                    out@ == nonce@.subrange(0, i as int),
                decreases nonce@.len() - i,
            {
                out.push(nonce[i]);
                i += 1;
            }
            assert(nonce@.subrange(0, nonce@.len() as int) == nonce@);
            let mut j: usize = 0;
            while j < sealed.len()
                invariant
                    j <= sealed@.len(),
                    out@ == nonce@ + sealed@.subrange(0, j as int),
                decreases sealed@.len() - j,
            {
                out.push(sealed[j]);
                j += 1;
            }
            assert(sealed@.subrange(0, sealed@.len() as int) == sealed@);
            Ok(out)
        },
        None => Err(CipherError::Encrypt),
    }
}

/// Seals a private key under a 32-byte password with the nonce given.
pub fn encrypt_with_nonce(private_key: &[u8], password: &[u8], aad: Option<&[u8]>, nonce: &[u8]) -> (result: Result<
    Vec<u8>,
    CipherError,
>)
    requires
        password@.len() == KEY_LEN,
        nonce@.len() == NONCE_LEN,
    ensures
        result_view(result) == sealed_with_nonce(private_key@, password@, aad_view(aad), nonce@),
{
    let empty: Vec<u8> = Vec::new();
    let sealed = match aad {
        Some(aad) => seal(password, nonce, private_key, aad),
        None => seal(password, nonce, private_key, empty.as_slice()),
    };
    frame(nonce, sealed)
}

/// Seals a private key under a 32-byte password with a fresh random nonce.
/// What comes back starts with the nonce and goes on with the ciphertext
/// under it.
pub fn encrypt(private_key: &[u8], password: &[u8], aad: Option<&[u8]>) -> (result: Result<
    Vec<u8>,
    CipherError,
>)
    requires
        password@.len() == KEY_LEN,
    ensures
        exists|nonce: Seq<u8>|
            nonce.len() == NONCE_LEN && result_view(result) == #[trigger] sealed_with_nonce(
                private_key@,
                password@,
                aad_view(aad),
                nonce,
            ),
        result matches Ok(out) ==> out@.len() >= NONCE_LEN && aes256_gcm_sealed(
            password@,
            out@.subrange(0, NONCE_LEN as int),
            private_key@,
            aad_view(aad),
        ) == Some(out@.subrange(NONCE_LEN as int, out@.len() as int)),
{
    let nonce = generate_nonce();
    let result = encrypt_with_nonce(private_key, password, aad, nonce.as_slice());
    proof {
        if let Ok(out) = &result {
            let sealed = aes256_gcm_sealed(password@, nonce@, private_key@, aad_view(aad)).unwrap();
            assert(out@.subrange(0, NONCE_LEN as int) =~= nonce@);
            assert(out@.subrange(NONCE_LEN as int, out@.len() as int) =~= sealed);
        }
    }
    result
}

/// Opens what `encrypt` gave under the same password and associated data.
pub fn decrypt(encrypted_private_key: &[u8], password: &[u8], aad: Option<&[u8]>) -> (result: Result<
    Vec<u8>,
    CipherError,
>)
    requires
        password@.len() == KEY_LEN,
        encrypted_private_key@.len() >= NONCE_LEN,
    ensures
        result_view(result) == opened(encrypted_private_key@, password@, aad_view(aad)),
{
    let nonce = slice_subrange(encrypted_private_key, 0, NONCE_LEN);
    let sealed = slice_subrange(encrypted_private_key, NONCE_LEN, encrypted_private_key.len());
    let empty: Vec<u8> = Vec::new();
    let message = match aad {
        Some(aad) => open(password, nonce, sealed, aad),
        None => open(password, nonce, sealed, empty.as_slice()),
    };
    match message {
        Some(message) => Ok(message),
        None => Err(CipherError::Decrypt),
    }
}

} // verus!
