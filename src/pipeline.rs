//! From container bytes and private key bytes to plaintext: parse, recover the
//! symmetric key, verify and decrypt. Each stage's failure ends the run and
//! names the stage.
use vstd::prelude::*;

use crate::aead::{decrypt, open_spec, AeadError};
use crate::container::{parse_container, parse_spec, ContainerView, FormatError};
use crate::kem::{decapsulate, decapsulate_spec, KeyError};

verus! {

/// Why a container could not be decrypted.
#[derive(Clone, Copy, Debug, PartialEq, Eq, Structural)]
pub enum DecryptError {
    /// The bytes are not a well-formed container.
    Format(FormatError),
    /// The private key bytes are not a Kyber-1024 private key.
    InvalidKey,
    /// The container's KEM ciphertext is not a Kyber-1024 ciphertext.
    InvalidCiphertext,
    /// The derived symmetric key is not an AES-256 key.
    KeyInit,
    /// The authentication tag does not verify: the data was altered, or the
    /// private key does not match.
    Authentication,
}

impl DecryptError {
    /// A message for the user that holds no key material and no plaintext.
    pub fn message(&self) -> (r: &'static str) {
        match self {
            DecryptError::Format(FormatError::UnsupportedVersion(_)) => "Unsupported encryption version",
            DecryptError::Format(FormatError::Truncated(_)) => "Invalid file format: file is truncated",
            DecryptError::InvalidKey => "Invalid private key format",
            DecryptError::InvalidCiphertext => "Invalid Kyber ciphertext",
            DecryptError::KeyInit => "Failed to initialize AES cipher",
            DecryptError::Authentication => "Decryption failed - incorrect key or corrupted data",
        }
    }
}

/// The error of the key stage, as a pipeline error.
pub open spec fn key_error(e: KeyError) -> DecryptError {
    match e {
        KeyError::InvalidKey => DecryptError::InvalidKey,
        KeyError::InvalidCiphertext => DecryptError::InvalidCiphertext,
    }
}

/// The error of the symmetric stage, as a pipeline error.
pub open spec fn aead_error(e: AeadError) -> DecryptError {
    match e {
        AeadError::KeyInit => DecryptError::KeyInit,
        AeadError::Authentication => DecryptError::Authentication,
    }
}

/// The outcome of the key and symmetric stages on a parsed container.
pub open spec fn decrypt_parsed_spec(c: ContainerView, secret_key: Seq<u8>) -> Result<
    Seq<u8>,
    DecryptError,
> {
    match decapsulate_spec(secret_key, c.kem_ciphertext) {
        Err(e) => Err(key_error(e)),
        Ok(key) => match open_spec(key, c.nonce, c.payload) {
            Err(e) => Err(aead_error(e)),
            Ok(p) => Ok(p),
        },
    }
}

/// The outcome of decrypting `raw` with the private key `secret_key`.
pub open spec fn decrypt_spec(raw: Seq<u8>, secret_key: Seq<u8>) -> Result<Seq<u8>, DecryptError> {
    match parse_spec(raw) {
        Err(e) => Err(DecryptError::Format(e)),
        Ok(c) => decrypt_parsed_spec(c, secret_key),
    }
}

/// The view of a pipeline result.
pub open spec fn outcome_view(r: Result<Vec<u8>, DecryptError>) -> Result<Seq<u8>, DecryptError> {
    match r {
        Ok(p) => Ok(p@),
        Err(e) => Err(e),
    }
}

/// Decrypts one container with a private key. The result depends on the two
/// byte sequences alone; neither is changed.
pub fn decrypt_container(raw: &[u8], secret_key: &[u8]) -> (r: Result<Vec<u8>, DecryptError>)
    ensures
        outcome_view(r) == decrypt_spec(raw@, secret_key@),
        !(r matches Err(DecryptError::KeyInit)),
{
    let c = match parse_container(raw) {
        Ok(c) => c,
        Err(e) => return Err(DecryptError::Format(e)),
    };
    let key = match decapsulate(secret_key, c.kem_ciphertext.as_slice()) {
        Ok(k) => k,
        Err(KeyError::InvalidKey) => return Err(DecryptError::InvalidKey),
        Err(KeyError::InvalidCiphertext) => return Err(DecryptError::InvalidCiphertext),
    };
    match decrypt(key.as_slice(), c.nonce.as_slice(), c.payload.as_slice()) {
        Ok(p) => Ok(p),
        Err(AeadError::KeyInit) => Err(DecryptError::KeyInit),
        Err(AeadError::Authentication) => Err(DecryptError::Authentication),
    }
}

} // verus!
