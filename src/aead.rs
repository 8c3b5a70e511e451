//! AES-256-GCM authenticated decryption of the container's payload.
use vstd::prelude::*;

use aes_gcm::aead::Aead;
use aes_gcm::aead::KeyInit;
use aes_gcm::Aes256Gcm;

verus! {

/// Length of an AES-256 key.
pub const AES_KEY_LEN: usize = 32;

/// Length of the AES-GCM authentication tag at the end of a payload.
pub const TAG_LEN: usize = 16;

/// What AES-256-GCM decryption with `key` and `nonce` makes of `payload`
/// (ciphertext followed by tag, no associated data): the plaintext, or `None`
/// where the tag does not verify.
pub uninterp spec fn aes256_gcm_open(key: Seq<u8>, nonce: Seq<u8>, payload: Seq<u8>) -> Option<Seq<u8>>;

/// Why the payload could not be decrypted.
#[derive(Clone, Copy, Debug, PartialEq, Eq, Structural)]
pub enum AeadError {
    /// The key is not an AES-256 key.
    KeyInit,
    /// The authentication tag does not verify.
    Authentication,
}

/// Relies on aes-gcm's `Aes256Gcm`: `KeyInit::new_from_slice` accepts exactly
/// the keys of 32 bytes; `Aead::decrypt` (aead 0.5) checks the tag before it
/// releases any plaintext, refuses a payload shorter than the tag, and returns
/// the payload without its tag. `Nonce::from_slice` panics unless the nonce
/// has 12 bytes.
#[verifier::external_body]
fn aes256_gcm_decrypt(key: &[u8], nonce: &[u8], payload: &[u8]) -> (r: Result<Vec<u8>, AeadError>)
    requires
        nonce@.len() == 12,
    ensures
        (r matches Err(e) && e == AeadError::KeyInit) <==> key@.len() != AES_KEY_LEN,
        (r is Ok) <==> (key@.len() == AES_KEY_LEN && aes256_gcm_open(key@, nonce@, payload@) is Some),
        r matches Ok(p) ==> aes256_gcm_open(key@, nonce@, payload@) == Some(p@),
        payload@.len() < TAG_LEN ==> r is Err,
        r matches Ok(p) ==> p@.len() + TAG_LEN == payload@.len(),
{
    match Aes256Gcm::new_from_slice(key) {
        Err(_) => Err(AeadError::KeyInit),
        Ok(cipher) => cipher
            .decrypt(aes_gcm::Nonce::from_slice(nonce), payload)
            .map_err(|_| AeadError::Authentication),
    }
}

/// What decrypting `payload` with `key` and `nonce` gives.
pub open spec fn open_spec(key: Seq<u8>, nonce: Seq<u8>, payload: Seq<u8>) -> Result<
    Seq<u8>,
    AeadError,
> {
    if key.len() != AES_KEY_LEN {
        Err(AeadError::KeyInit)
    } else {
        match aes256_gcm_open(key, nonce, payload) {
            Some(p) => Ok(p),
            None => Err(AeadError::Authentication),
        }
    }
}

/// Authenticated decryption of `payload` (ciphertext followed by its tag).
/// On a tag mismatch no plaintext is returned.
pub fn decrypt(key: &[u8], nonce: &[u8], payload: &[u8]) -> (r: Result<Vec<u8>, AeadError>)
    requires
        nonce@.len() == 12,
    ensures
        match r {
            Ok(p) => open_spec(key@, nonce@, payload@) == Ok::<Seq<u8>, AeadError>(p@),
            Err(e) => open_spec(key@, nonce@, payload@) == Err::<Seq<u8>, AeadError>(e),
        },
        payload@.len() < TAG_LEN ==> r is Err,
        r matches Ok(p) ==> p@.len() + TAG_LEN == payload@.len(),
{
    aes256_gcm_decrypt(key, nonce, payload)
}

} // verus!
