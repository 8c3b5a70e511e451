//! Properties of the decryption pipeline and of batches, proved over the
//! specifications that the executable functions meet.
use vstd::prelude::*;

use crate::batch::{batch_spec, count_failures, count_successes};
use crate::container::{declared_kem_len, parse_spec, ContainerField, FormatError, CONTAINER_VERSION};
use crate::pipeline::{decrypt_spec, outcome_view, DecryptError};

verus! {

/// The field in which a cut after `n` bytes falls, for a container whose KEM
/// ciphertext has `kem_len` bytes.
pub open spec fn field_cut_at(n: int, kem_len: int) -> ContainerField {
    if n < 1 {
        ContainerField::Version
    } else if n < 5 {
        ContainerField::LengthField
    } else if n < 5 + kem_len {
        ContainerField::KemCiphertext
    } else {
        ContainerField::Nonce
    }
}

/// Cutting a well-formed container short anywhere before its payload gives the
/// format error that names the field in which the cut falls, whatever the
/// private key: the key plays no part, so no cryptographic step is reached.
pub proof fn truncation_names_missing_field(raw: Seq<u8>, secret_key: Seq<u8>, n: int)
    requires
        parse_spec(raw) is Ok,
        0 <= n < 17 + declared_kem_len(raw),
    ensures
        decrypt_spec(raw.take(n), secret_key) == Err::<Seq<u8>, DecryptError>(
            DecryptError::Format(
                FormatError::Truncated(field_cut_at(n, declared_kem_len(raw) as int)),
            ),
        ),
{
    let cut = raw.take(n);
    if n >= 5 {
        assert(cut.subrange(1, 5) =~= raw.subrange(1, 5));
    }
}

/// A buffer whose first byte is not the supported version is refused for that
/// alone, whatever follows and whatever the private key.
pub proof fn version_gate(raw: Seq<u8>, secret_key: Seq<u8>)
    requires
        raw.len() >= 1,
        raw[0] != CONTAINER_VERSION,
    ensures
        decrypt_spec(raw, secret_key) == Err::<Seq<u8>, DecryptError>(
            DecryptError::Format(FormatError::UnsupportedVersion(raw[0])),
        ),
{
}

/// Two decryptions of the same container with the same private key give the
/// same outcome: the outcome is a function of the two byte sequences alone.
pub proof fn decryption_is_repeatable(
    raw: Seq<u8>,
    secret_key: Seq<u8>,
    first: Result<Vec<u8>, DecryptError>,
    second: Result<Vec<u8>, DecryptError>,
)
    requires
        outcome_view(first) == decrypt_spec(raw, secret_key),
        outcome_view(second) == decrypt_spec(raw, secret_key),
    ensures
        outcome_view(first) == outcome_view(second),
{
}

/// Replacing one container of a batch, by a corrupted one say, changes no
/// other container's outcome.
pub proof fn batch_isolation(
    containers: Seq<Seq<u8>>,
    secret_key: Seq<u8>,
    j: int,
    replacement: Seq<u8>,
    i: int,
)
    requires
        0 <= j < containers.len(),
        0 <= i < containers.len(),
        i != j,
    ensures
        batch_spec(containers.update(j, replacement), secret_key)[i] == batch_spec(
            containers,
            secret_key,
        )[i],
{
}

/// In a batch, the successes and the failures together are the files attempted.
pub proof fn batch_counts_add_up(outcomes: Seq<Result<Seq<u8>, DecryptError>>)
    ensures
        count_successes(outcomes) + count_failures(outcomes) == outcomes.len(),
    decreases outcomes.len(),
{
    if outcomes.len() > 0 {
        batch_counts_add_up(outcomes.drop_last());
    }
}

} // verus!
