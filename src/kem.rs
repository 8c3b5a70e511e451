//! Kyber-1024 key encapsulation: from a private key and a KEM ciphertext to
//! the symmetric key of the payload.
use vstd::prelude::*;

use pqcrypto_kyber::kyber1024;
use pqcrypto_traits::kem::Ciphertext as _;
use pqcrypto_traits::kem::SecretKey as _;
use pqcrypto_traits::kem::SharedSecret as _;

verus! {

/// Length of a Kyber-1024 private key.
pub const SECRET_KEY_LEN: usize = 3168;

/// Length of a Kyber-1024 ciphertext.
pub const KEM_CIPHERTEXT_LEN: usize = 1568;

/// Length of a Kyber-1024 shared secret.
pub const SHARED_SECRET_LEN: usize = 32;

/// Length of the AES-256 key taken from the shared secret.
pub const SYMMETRIC_KEY_LEN: usize = 32;

#[verifier::external_type_specification]
#[verifier::external_body]
pub struct ExKyberSecretKey(kyber1024::SecretKey);

#[verifier::external_type_specification]
#[verifier::external_body]
pub struct ExKyberCiphertext(kyber1024::Ciphertext);

/// The shared secret that Kyber-1024 decapsulation derives from a private key
/// and a ciphertext (both as bytes). Decapsulation is deterministic.
pub uninterp spec fn kyber1024_shared_secret(secret_key: Seq<u8>, ciphertext: Seq<u8>) -> Seq<u8>;

/// Why KEM material was refused.
#[derive(Clone, Copy, Debug, PartialEq, Eq, Structural)]
pub enum KeyError {
    /// The private key bytes are not a Kyber-1024 private key.
    InvalidKey,
    /// The KEM ciphertext bytes are not a Kyber-1024 ciphertext.
    InvalidCiphertext,
}

/// Relies on `SecretKey::from_bytes` of pqcrypto-kyber's kyber1024: it accepts
/// exactly the slices of the private key's length.
#[verifier::external_body]
fn kyber_secret_key_from_bytes(b: &[u8]) -> (r: Option<kyber1024::SecretKey>)
    ensures
        r.is_some() <==> b@.len() == SECRET_KEY_LEN,
{
    kyber1024::SecretKey::from_bytes(b).ok()
}

/// Relies on `Ciphertext::from_bytes` of pqcrypto-kyber's kyber1024: it accepts
/// exactly the slices of the ciphertext's length.
#[verifier::external_body]
fn kyber_ciphertext_from_bytes(b: &[u8]) -> (r: Option<kyber1024::Ciphertext>)
    ensures
        r.is_some() <==> b@.len() == KEM_CIPHERTEXT_LEN,
{
    kyber1024::Ciphertext::from_bytes(b).ok()
}

/// A Kyber-1024 private key, with the bytes it was made from.
pub struct KemSecretKey {
    key: kyber1024::SecretKey,
    bytes: Ghost<Seq<u8>>,
}

/// A Kyber-1024 ciphertext, with the bytes it was made from.
pub struct KemCiphertext {
    ct: kyber1024::Ciphertext,
    bytes: Ghost<Seq<u8>>,
}

impl View for KemSecretKey {
    type V = Seq<u8>;

    closed spec fn view(&self) -> Seq<u8> {
        self.bytes@
    }
}

impl View for KemCiphertext {
    type V = Seq<u8>;

    closed spec fn view(&self) -> Seq<u8> {
        self.bytes@
    }
}

impl KemSecretKey {
    /// Reads a private key; `None` unless `b` has the private key's length.
    pub fn from_bytes(b: &[u8]) -> (r: Option<KemSecretKey>)
        ensures
            r.is_some() <==> b@.len() == SECRET_KEY_LEN,
            r matches Some(k) ==> k@ == b@,
    {
        match kyber_secret_key_from_bytes(b) {
            Some(key) => Some(KemSecretKey { key, bytes: Ghost(b@) }),
            None => None,
        }
    }
}

impl KemCiphertext {
    /// Reads a KEM ciphertext; `None` unless `b` has the ciphertext's length.
    pub fn from_bytes(b: &[u8]) -> (r: Option<KemCiphertext>)
        ensures
            r.is_some() <==> b@.len() == KEM_CIPHERTEXT_LEN,
            r matches Some(c) ==> c@ == b@,
    {
        match kyber_ciphertext_from_bytes(b) {
            Some(ct) => Some(KemCiphertext { ct, bytes: Ghost(b@) }),
            None => None,
        }
    }
}

/// Relies on `kyber1024::decapsulate` and `SharedSecret::as_bytes`: the secret
/// is a function of the ciphertext and the key, `SHARED_SECRET_LEN` bytes long.
/// The private fields of `KemSecretKey` and `KemCiphertext` are set only by
/// their `from_bytes`, from the same bytes that made the outside value.
#[verifier::external_body]
fn kyber_decapsulate(ct: &KemCiphertext, sk: &KemSecretKey) -> (r: Vec<u8>)
    ensures
        r@ == kyber1024_shared_secret(sk@, ct@),
        r@.len() == SHARED_SECRET_LEN,
{
    kyber1024::decapsulate(&ct.ct, &sk.key).as_bytes().to_vec()
}

/// The symmetric key taken from a shared secret: its first 32 bytes.
pub open spec fn symmetric_key_spec(shared_secret: Seq<u8>) -> Seq<u8> {
    shared_secret.take(SYMMETRIC_KEY_LEN as int)
}

/// The symmetric key derived from a private key and a KEM ciphertext, or why
/// the KEM material was refused. The private key is checked first.
pub open spec fn decapsulate_spec(secret_key: Seq<u8>, ciphertext: Seq<u8>) -> Result<
    Seq<u8>,
    KeyError,
> {
    if secret_key.len() != SECRET_KEY_LEN {
        Err(KeyError::InvalidKey)
    } else if ciphertext.len() != KEM_CIPHERTEXT_LEN {
        Err(KeyError::InvalidCiphertext)
    } else {
        Ok(symmetric_key_spec(kyber1024_shared_secret(secret_key, ciphertext)))
    }
}

/// Takes the first `SYMMETRIC_KEY_LEN` bytes of a shared secret as the key.
pub fn derive_symmetric_key(shared_secret: &[u8]) -> (r: Vec<u8>)
    requires
        shared_secret@.len() >= SYMMETRIC_KEY_LEN,
    ensures
        r@ == symmetric_key_spec(shared_secret@),
{
    let mut r: Vec<u8> = Vec::with_capacity(SYMMETRIC_KEY_LEN);
    let mut i: usize = 0;
    while i < SYMMETRIC_KEY_LEN
        invariant
            i <= SYMMETRIC_KEY_LEN <= shared_secret@.len(),
            r@ == shared_secret@.take(i as int),
        decreases SYMMETRIC_KEY_LEN - i,
    {
        r.push(shared_secret[i]);
        i = i + 1;
        assert(r@ =~= shared_secret@.take(i as int));
    }
    r
}

/// Recovers the symmetric key from the private key bytes and the KEM
/// ciphertext bytes. No check is made that the secret is the one that was
/// encapsulated: a mismatched key yields an unrelated symmetric key.
pub fn decapsulate(secret_key: &[u8], kem_ciphertext: &[u8]) -> (r: Result<Vec<u8>, KeyError>)
    ensures
        match r {
            Ok(k) => decapsulate_spec(secret_key@, kem_ciphertext@) == Ok::<Seq<u8>, KeyError>(k@),
            Err(e) => decapsulate_spec(secret_key@, kem_ciphertext@) == Err::<Seq<u8>, KeyError>(e),
        },
        r matches Ok(k) ==> k@.len() == SYMMETRIC_KEY_LEN,
{
    let sk = match KemSecretKey::from_bytes(secret_key) {
        Some(sk) => sk,
        None => return Err(KeyError::InvalidKey),
    };
    let ct = match KemCiphertext::from_bytes(kem_ciphertext) {
        Some(ct) => ct,
        None => return Err(KeyError::InvalidCiphertext),
    };
    let shared_secret = kyber_decapsulate(&ct, &sk);
    Ok(derive_symmetric_key(shared_secret.as_slice()))
}

} // verus!
