//! The batch: every container decrypted on its own, output names taken from
//! input names, and the counts of successes and failures.
use vstd::prelude::*;

use crate::pipeline::{decrypt_container, decrypt_spec, outcome_view, DecryptError};

verus! {

/// The extension, without its dot, of the files that hold containers: `pqenc`.
pub open spec fn container_extension() -> Seq<u8> {
    seq![0x70u8, 0x71u8, 0x65u8, 0x6eu8, 0x63u8]
}

/// The extension, with its dot, given to decrypted photos: `.jpg`.
pub open spec fn photo_suffix() -> Seq<u8> {
    seq![0x2eu8, 0x6au8, 0x70u8, 0x67u8]
}

/// Index of the last `.` among the first `n` bytes of `name`, or -1.
pub open spec fn last_dot_before(name: Seq<u8>, n: int) -> int
    decreases n,
{
    if n <= 0 {
        -1
    } else if name[n - 1] == 0x2e {
        n - 1
    } else {
        last_dot_before(name, n - 1)
    }
}

/// Index of the last `.` in `name`, or -1.
pub open spec fn last_dot(name: Seq<u8>) -> int {
    last_dot_before(name, name.len() as int)
}

/// The file name `..`.
pub open spec fn is_parent_name(name: Seq<u8>) -> bool {
    name =~= seq![0x2eu8, 0x2eu8]
}

/// The stem of a file name: the name without its last extension. A name whose
/// only dot leads it has no extension; `..` has no stem.
pub open spec fn file_stem_spec(name: Seq<u8>) -> Option<Seq<u8>> {
    if is_parent_name(name) {
        None
    } else if last_dot(name) <= 0 {
        Some(name)
    } else {
        Some(name.take(last_dot(name)))
    }
}

/// The extension of a file name: what follows its last dot, where that dot
/// does not lead the name.
pub open spec fn extension_spec(name: Seq<u8>) -> Option<Seq<u8>> {
    if is_parent_name(name) || last_dot(name) <= 0 {
        None
    } else {
        Some(name.skip(last_dot(name) + 1))
    }
}

/// The name of the decrypted photo for the container file `name`: its stem
/// with the photo extension.
pub open spec fn output_name_spec(name: Seq<u8>) -> Option<Seq<u8>> {
    match file_stem_spec(name) {
        Some(stem) => Some(stem + photo_suffix()),
        None => None,
    }
}

proof fn last_dot_before_bounds(name: Seq<u8>, n: int)
    requires
        0 <= n <= name.len(),
    ensures
        -1 <= last_dot_before(name, n) < n,
        last_dot_before(name, n) >= 0 ==> name[last_dot_before(name, n)] == 0x2e,
    decreases n,
{
    if n > 0 {
        last_dot_before_bounds(name, n - 1);
    }
}

/// Finds the index of the last `.` in `name`.
fn find_last_dot(name: &[u8]) -> (r: Option<usize>)
    ensures
        match r {
            Some(i) => last_dot(name@) == i as int,
            None => last_dot(name@) == -1,
        },
{
    let mut n: usize = name.len();
    while n > 0
        invariant
            n <= name@.len(),
            last_dot(name@) == last_dot_before(name@, n as int),
        decreases n,
    {
        if name[n - 1] == 0x2e {
            return Some(n - 1);
        }
        n = n - 1;
    }
    None
}

/// Whether `name` is `..`.
fn is_parent(name: &[u8]) -> (r: bool)
    ensures
        r == is_parent_name(name@),
{
    name.len() == 2 && name[0] == 0x2e && name[1] == 0x2e
}

/// Whether the file `name` holds a container, judged by its extension.
pub fn has_container_extension(name: &[u8]) -> (r: bool)
    ensures
        r == (extension_spec(name@) == Some(container_extension())),
{
    let ext: &[u8] = &[0x70, 0x71, 0x65, 0x6e, 0x63];
    let expected: Ghost<Seq<u8>> = Ghost(container_extension());
    assert(ext@ =~= expected@);
    proof {
        last_dot_before_bounds(name@, name@.len() as int);
    }
    if is_parent(name) {
        return false;
    }
    match find_last_dot(name) {
        None => false,
        Some(0) => false,
        Some(d) => {
            let n = name.len();
            if n - (d + 1) != 5 {
                assert(name@.skip(d + 1).len() != expected@.len());
                return false;
            }
            let mut i: usize = 0;
            while i < 5
                invariant
                    n == name@.len(),
                    d + 1 + 5 == n,
                    ext@ == expected@,
                    expected@ == container_extension(),
                    expected@.len() == 5,
                    extension_spec(name@) == Some(name@.skip(d + 1)),
                    i <= 5,
                    forall|j: int| 0 <= j < i ==> name@[d + 1 + j] == ext@[j],
                decreases 5 - i,
            {
                if name[d + 1 + i] != ext[i] {
                    assert(name@.skip(d + 1)[i as int] != expected@[i as int]);
                    assert(name@.skip(d + 1) != expected@);
                    return false;
                }
                i = i + 1;
            }
            assert(name@.skip(d + 1) =~= expected@);
            true
        },
    }
}

/// The name of the decrypted photo for the container file `name`: its stem
/// followed by the photo extension. `None` for `..`, which has no stem.
pub fn output_file_name(name: &[u8]) -> (r: Option<Vec<u8>>)
    requires
        name@.len() + 4 <= usize::MAX,
    ensures
        match r {
            Some(o) => output_name_spec(name@) == Some(o@),
            None => output_name_spec(name@) is None,
        },
{
    proof {
        last_dot_before_bounds(name@, name@.len() as int);
    }
    if is_parent(name) {
        return None;
    }
    let stem_len: usize = match find_last_dot(name) {
        None => name.len(),
        Some(0) => name.len(),
        Some(d) => d,
    };
    let mut out: Vec<u8> = Vec::with_capacity(stem_len + 4);
    let mut i: usize = 0;
    while i < stem_len
        invariant
            stem_len <= name@.len(),
            i <= stem_len,
            out@ == name@.take(i as int),
        decreases stem_len - i,
    {
        out.push(name[i]);
        i = i + 1;
        assert(out@ =~= name@.take(i as int));
    }
    let ghost stem = out@;
    out.push(0x2e);
    out.push(0x6a);
    out.push(0x70);
    out.push(0x67);
    assert(stem =~= file_stem_spec(name@).unwrap());
    assert(out@ =~= stem + photo_suffix());
    Some(out)
}

/// The outcomes of a batch: each container decrypted on its own with the
/// same private key.
pub open spec fn batch_spec(containers: Seq<Seq<u8>>, secret_key: Seq<u8>) -> Seq<
    Result<Seq<u8>, DecryptError>,
> {
    containers.map_values(|c: Seq<u8>| decrypt_spec(c, secret_key))
}

/// How many of `outcomes` are successes.
pub open spec fn count_successes(outcomes: Seq<Result<Seq<u8>, DecryptError>>) -> nat
    decreases outcomes.len(),
{
    if outcomes.len() == 0 {
        0
    } else {
        count_successes(outcomes.drop_last()) + if outcomes.last() is Ok {
            1nat
        } else {
            0nat
        }
    }
}

/// How many of `outcomes` are failures.
pub open spec fn count_failures(outcomes: Seq<Result<Seq<u8>, DecryptError>>) -> nat
    decreases outcomes.len(),
{
    if outcomes.len() == 0 {
        0
    } else {
        count_failures(outcomes.drop_last()) + if outcomes.last() is Ok {
            0nat
        } else {
            1nat
        }
    }
}

/// The running counts of a batch.
#[derive(Clone, Copy, Debug, PartialEq, Eq, Structural)]
pub struct BatchSummary {
    pub successes: usize,
    pub failures: usize,
}

impl BatchSummary {
    /// The counts before any file.
    pub fn new() -> (r: BatchSummary)
        ensures
            r.successes == 0,
            r.failures == 0,
    {
        BatchSummary { successes: 0, failures: 0 }
    }

    /// Counts one more file, a success or a failure.
    pub fn record(&mut self, succeeded: bool)
        requires
            old(self).successes + old(self).failures < usize::MAX,
        ensures
            final(self).successes == old(self).successes + if succeeded {
                1int
            } else {
                0int
            },
            final(self).failures == old(self).failures + if succeeded {
                0int
            } else {
                1int
            },
    {
        if succeeded {
            self.successes = self.successes + 1;
        } else {
            self.failures = self.failures + 1;
        }
    }

    /// How many files were counted.
    pub fn attempted(&self) -> (r: usize)
        requires
            self.successes + self.failures <= usize::MAX,
        ensures
            r == self.successes + self.failures,
    {
        self.successes + self.failures
    }
}

/// The outcome of each container of a batch and the name chosen for its
/// photo, in order, and their counts.
pub struct BatchResult {
    pub outcomes: Vec<Result<Vec<u8>, DecryptError>>,
    pub output_names: Vec<Option<Vec<u8>>>,
    pub summary: BatchSummary,
}

/// The view of an optional name.
pub open spec fn name_view(o: Option<Vec<u8>>) -> Option<Seq<u8>> {
    match o {
        Some(n) => Some(n@),
        None => None,
    }
}

/// The views of a sequence of optional names.
pub open spec fn names_view(v: Seq<Option<Vec<u8>>>) -> Seq<Option<Seq<u8>>> {
    v.map_values(|o: Option<Vec<u8>>| name_view(o))
}

/// The views of a sequence of outcomes.
pub open spec fn outcomes_view(outcomes: Seq<Result<Vec<u8>, DecryptError>>) -> Seq<
    Result<Seq<u8>, DecryptError>,
> {
    outcomes.map_values(|o: Result<Vec<u8>, DecryptError>| outcome_view(o))
}

/// The views of a sequence of byte vectors.
pub open spec fn bytes_view(v: Seq<Vec<u8>>) -> Seq<Seq<u8>> {
    v.map_values(|b: Vec<u8>| b@)
}

proof fn counts_push(outcomes: Seq<Result<Seq<u8>, DecryptError>>, o: Result<Seq<u8>, DecryptError>)
    ensures
        count_successes(outcomes.push(o)) == count_successes(outcomes) + if o is Ok {
            1nat
        } else {
            0nat
        },
        count_failures(outcomes.push(o)) == count_failures(outcomes) + if o is Ok {
            0nat
        } else {
            1nat
        },
{
    assert(outcomes.push(o).drop_last() =~= outcomes);
}

/// Decrypts every container with the same private key, one at a time and in
/// order, and names the photo of each after the file name beside it. A
/// failure is recorded and the batch goes on: each outcome is the one its
/// container gives alone. Two files may be given the same output name.
pub fn decrypt_batch(names: &Vec<Vec<u8>>, containers: &Vec<Vec<u8>>, secret_key: &[u8]) -> (r:
    BatchResult)
    requires
        names@.len() == containers@.len(),
        forall|i: int| 0 <= i < names@.len() ==> names@[i]@.len() + 4 <= usize::MAX,
    ensures
        outcomes_view(r.outcomes@) == batch_spec(bytes_view(containers@), secret_key@),
        names_view(r.output_names@) == bytes_view(names@).map_values(
            |n: Seq<u8>| output_name_spec(n),
        ),
        r.summary.successes == count_successes(batch_spec(bytes_view(containers@), secret_key@)),
        r.summary.failures == count_failures(batch_spec(bytes_view(containers@), secret_key@)),
        r.summary.successes + r.summary.failures == containers@.len(),
{
    let ghost all = batch_spec(bytes_view(containers@), secret_key@);
    let ghost all_names = bytes_view(names@).map_values(|n: Seq<u8>| output_name_spec(n));
    let mut outcomes: Vec<Result<Vec<u8>, DecryptError>> = Vec::new();
    let mut output_names: Vec<Option<Vec<u8>>> = Vec::new();
    let mut summary = BatchSummary::new();
    let mut i: usize = 0;
    while i < containers.len()
        invariant
            i <= containers@.len(),
            names@.len() == containers@.len(),
            forall|k: int| 0 <= k < names@.len() ==> names@[k]@.len() + 4 <= usize::MAX,
            all == batch_spec(bytes_view(containers@), secret_key@),
            all_names == bytes_view(names@).map_values(|n: Seq<u8>| output_name_spec(n)),
            outcomes_view(outcomes@) == all.take(i as int),
            names_view(output_names@) == all_names.take(i as int),
            summary.successes == count_successes(all.take(i as int)),
            summary.failures == count_failures(all.take(i as int)),
            summary.successes + summary.failures == i,
        decreases containers@.len() - i,
    {
        let outcome = decrypt_container(containers[i].as_slice(), secret_key);
        let succeeded = outcome.is_ok();
        let output_name = output_file_name(names[i].as_slice());
        proof {
            let nv = name_view(output_name);
            assert(nv == all_names[i as int]);
            assert(names_view(output_names@.push(output_name)) =~= names_view(output_names@).push(nv));
            assert(all_names.take(i + 1) =~= all_names.take(i as int).push(nv));
            assert(all.take(i + 1) =~= all.take(i as int).push(outcome_view(outcome)));
            counts_push(all.take(i as int), outcome_view(outcome));
        }
        outcomes.push(outcome);
        output_names.push(output_name);
        summary.record(succeeded);
        i = i + 1;
        assert(outcomes_view(outcomes@) =~= all.take(i as int));
        assert(names_view(output_names@) =~= all_names.take(i as int));
    }
    assert(all.take(i as int) =~= all);
    assert(all_names.take(i as int) =~= all_names);
    BatchResult { outcomes, output_names, summary }
}

} // verus!
