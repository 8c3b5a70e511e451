//! The binary container: version, big-endian KEM ciphertext length, KEM
//! ciphertext, AEAD nonce, and the AEAD ciphertext with its tag.
use vstd::prelude::*;

use crate::bytes::copy_range;

verus! {

/// The one container version this library reads.
pub const CONTAINER_VERSION: u8 = 0x01;

/// Size of the big-endian length field that precedes the KEM ciphertext.
pub const LENGTH_FIELD_LEN: usize = 4;

/// Size of the AES-GCM nonce carried in the container.
pub const NONCE_LEN: usize = 12;

/// Offset of the KEM ciphertext: one version byte and the length field.
pub const HEADER_LEN: usize = 5;

/// A field of the container, named where the buffer ends too early.
#[derive(Clone, Copy, Debug, PartialEq, Eq, Structural)]
pub enum ContainerField {
    Version,
    LengthField,
    KemCiphertext,
    Nonce,
}

/// Why a buffer is not a well-formed container.
#[derive(Clone, Copy, Debug, PartialEq, Eq, Structural)]
pub enum FormatError {
    /// The first byte names a version other than `CONTAINER_VERSION`.
    UnsupportedVersion(u8),
    /// The buffer ends inside the given field.
    Truncated(ContainerField),
}

/// The fields of a parsed container.
pub struct Container {
    pub version: u8,
    pub kem_ciphertext: Vec<u8>,
    pub nonce: Vec<u8>,
    /// AEAD ciphertext followed by its authentication tag.
    pub payload: Vec<u8>,
}

/// The mathematical value of a `Container`.
pub ghost struct ContainerView {
    pub version: u8,
    pub kem_ciphertext: Seq<u8>,
    pub nonce: Seq<u8>,
    pub payload: Seq<u8>,
}

impl View for Container {
    type V = ContainerView;

    open spec fn view(&self) -> ContainerView {
        ContainerView {
            version: self.version,
            kem_ciphertext: self.kem_ciphertext@,
            nonce: self.nonce@,
            payload: self.payload@,
        }
    }
}

/// The unsigned big-endian integer held in the four bytes `b[0..4]`.
pub open spec fn be_u32(b: Seq<u8>) -> nat
    recommends
        b.len() >= 4,
{
    (b[0] as nat) * 0x100_0000 + (b[1] as nat) * 0x1_0000 + (b[2] as nat) * 0x100 + (b[3] as nat)
}

/// The KEM ciphertext length that a buffer declares after its version byte.
pub open spec fn declared_kem_len(buf: Seq<u8>) -> nat
    recommends
        buf.len() >= 5,
{
    be_u32(buf.subrange(1, 5))
}

/// What parsing `buf` gives: each field in order, the first one that does not
/// fit deciding the error.
pub open spec fn parse_spec(buf: Seq<u8>) -> Result<ContainerView, FormatError> {
    if buf.len() < 1 {
        Err(FormatError::Truncated(ContainerField::Version))
    } else if buf[0] != CONTAINER_VERSION {
        Err(FormatError::UnsupportedVersion(buf[0]))
    } else if buf.len() < 5 {
        Err(FormatError::Truncated(ContainerField::LengthField))
    } else {
        let l = declared_kem_len(buf) as int;
        if buf.len() < 5 + l {
            Err(FormatError::Truncated(ContainerField::KemCiphertext))
        } else if buf.len() < 17 + l {
            Err(FormatError::Truncated(ContainerField::Nonce))
        } else {
            Ok(
                ContainerView {
                    version: buf[0],
                    kem_ciphertext: buf.subrange(5, 5 + l),
                    nonce: buf.subrange(5 + l, 17 + l),
                    payload: buf.subrange(17 + l, buf.len() as int),
                },
            )
        }
    }
}

/// The view of a parse result.
pub open spec fn parse_result_view(r: Result<Container, FormatError>) -> Result<
    ContainerView,
    FormatError,
> {
    match r {
        Ok(c) => Ok(c@),
        Err(e) => Err(e),
    }
}

/// Reads four bytes as an unsigned big-endian integer.
pub fn read_be_u32(b0: u8, b1: u8, b2: u8, b3: u8) -> (r: u32)
    ensures
        r as nat == be_u32(seq![b0, b1, b2, b3]),
{
    (b0 as u32) * 0x100_0000 + (b1 as u32) * 0x1_0000 + (b2 as u32) * 0x100 + (b3 as u32)
}

/// Splits `buf` into the fields of a container. Every failure is found from
/// the lengths alone, before any cryptographic work.
pub fn parse_container(buf: &[u8]) -> (r: Result<Container, FormatError>)
    ensures
        parse_result_view(r) == parse_spec(buf@),
{
    let n = buf.len();
    if n < 1 {
        return Err(FormatError::Truncated(ContainerField::Version));
    }
    let version = buf[0];
    if version != CONTAINER_VERSION {
        return Err(FormatError::UnsupportedVersion(version));
    }
    if n - 1 < LENGTH_FIELD_LEN {
        return Err(FormatError::Truncated(ContainerField::LengthField));
    }
    let declared = read_be_u32(buf[1], buf[2], buf[3], buf[4]);
    proof {
        assert(seq![buf@[1], buf@[2], buf@[3], buf@[4]] =~= buf@.subrange(1, 5));
    }
    let kem_len = declared as usize;
    if n - HEADER_LEN < kem_len {
        return Err(FormatError::Truncated(ContainerField::KemCiphertext));
    }
    let kem_end = HEADER_LEN + kem_len;
    if n - kem_end < NONCE_LEN {
        return Err(FormatError::Truncated(ContainerField::Nonce));
    }
    let nonce_end = kem_end + NONCE_LEN;
    let kem_ciphertext = copy_range(buf, HEADER_LEN, kem_end);
    let nonce = copy_range(buf, kem_end, nonce_end);
    let payload = copy_range(buf, nonce_end, n);
    Ok(Container { version, kem_ciphertext, nonce, payload })
}

} // verus!
