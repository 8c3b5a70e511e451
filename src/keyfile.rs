//! The private key file: base64 text in which blank lines and lines that
//! start with `#` are ignored.
use vstd::prelude::*;

use base64::Engine as _;

verus! {

/// Unicode White_Space, the characters that `char::is_whitespace` accepts.
pub open spec fn is_space(c: char) -> bool {
    let u = c as u32;
    (0x09 <= u <= 0x0d) || u == 0x20 || u == 0x85 || u == 0xa0 || u == 0x1680 || (0x2000 <= u
        <= 0x200a) || u == 0x2028 || u == 0x2029 || u == 0x202f || u == 0x205f || u == 0x3000
}

/// Index of the first `\n` in `t` at or after `i`, or `t.len()`.
pub open spec fn line_end(t: Seq<char>, i: int) -> int
    decreases t.len() - i,
{
    if i >= t.len() {
        t.len() as int
    } else if t[i] == '\n' {
        i
    } else {
        line_end(t, i + 1)
    }
}

/// Where the text of the line that starts at `start` and ends at `end` stops:
/// a `\r` right before the `\n` is no part of it.
pub open spec fn line_text_end(t: Seq<char>, start: int, end: int) -> int {
    if end < t.len() && end > start && t[end - 1] == '\r' {
        end - 1
    } else {
        end
    }
}

/// Index of the first character of `l` at or after `i` that is no space, or `l.len()`.
pub open spec fn first_non_space(l: Seq<char>, i: int) -> int
    decreases l.len() - i,
{
    if i >= l.len() {
        l.len() as int
    } else if !is_space(l[i]) {
        i
    } else {
        first_non_space(l, i + 1)
    }
}

/// A line is kept unless it is blank or its first character that is no
/// space is `#`.
pub open spec fn is_key_line(l: Seq<char>) -> bool {
    first_non_space(l, 0) < l.len() && l[first_non_space(l, 0)] != '#'
}

/// The kept lines of `t` from the line that starts at `i` on, joined without
/// their line endings.
pub open spec fn key_lines_from(t: Seq<char>, i: int) -> Seq<char>
    decreases t.len() + 1 - i,
    via key_lines_from_decreases
{
    if i < 0 || i >= t.len() {
        Seq::empty()
    } else {
        let e = line_end(t, i);
        let l = t.subrange(i, line_text_end(t, i, e));
        (if is_key_line(l) {
            l
        } else {
            Seq::empty()
        }) + key_lines_from(t, e + 1)
    }
}

#[via_fn]
proof fn key_lines_from_decreases(t: Seq<char>, i: int) {
    if 0 <= i < t.len() {
        line_end_bounds(t, i);
    }
}

/// Number of spaces at the end of `l[..n]`.
pub open spec fn trailing_spaces(l: Seq<char>, n: int) -> int
    decreases n,
{
    if n <= 0 {
        0
    } else if is_space(l[n - 1]) {
        trailing_spaces(l, n - 1) + 1
    } else {
        0
    }
}

/// `l` without the spaces at either end.
pub open spec fn trim_spec(l: Seq<char>) -> Seq<char> {
    let s = first_non_space(l, 0);
    if s >= l.len() {
        Seq::empty()
    } else {
        l.subrange(s, l.len() - trailing_spaces(l, l.len() as int))
    }
}

/// The base64 text of a key file.
pub open spec fn key_text_spec(t: Seq<char>) -> Seq<char> {
    trim_spec(key_lines_from(t, 0))
}

/// The bytes that standard base64 (with padding) decodes `text` to, or `None`
/// where `text` is not such base64.
pub uninterp spec fn base64_standard_decode(text: Seq<char>) -> Option<Seq<u8>>;

/// Relies on base64 0.21's `STANDARD` engine and its `Engine::decode`: the
/// result is a function of the text.
#[verifier::external_body]
fn base64_decode(text: &[char]) -> (r: Option<Vec<u8>>)
    ensures
        match r {
            Some(b) => base64_standard_decode(text@) == Some(b@),
            None => base64_standard_decode(text@) is None,
        },
{
    let s: String = text.iter().collect();
    base64::engine::general_purpose::STANDARD.decode(s).ok()
}

/// Whether `c` is Unicode white space.
fn is_space_char(c: char) -> (r: bool)
    ensures
        r == is_space(c),
{
    let u = c as u32;
    (0x09 <= u && u <= 0x0d) || u == 0x20 || u == 0x85 || u == 0xa0 || u == 0x1680 || (0x2000 <= u
        && u <= 0x200a) || u == 0x2028 || u == 0x2029 || u == 0x202f || u == 0x205f || u == 0x3000
}

proof fn line_end_bounds(t: Seq<char>, i: int)
    requires
        0 <= i <= t.len(),
    ensures
        i <= line_end(t, i) <= t.len(),
    decreases t.len() - i,
{
    if i < t.len() && t[i] != '\n' {
        line_end_bounds(t, i + 1);
    }
}

proof fn trailing_spaces_bounds(l: Seq<char>, n: int)
    requires
        0 <= n <= l.len(),
    ensures
        0 <= trailing_spaces(l, n) <= n,
    decreases n,
{
    if n > 0 && is_space(l[n - 1]) {
        trailing_spaces_bounds(l, n - 1);
    }
}

/// Whether the line `t[start..end]` is kept.
fn key_line_kept(t: &[char], start: usize, end: usize) -> (r: bool)
    requires
        start <= end <= t@.len(),
    ensures
        r == is_key_line(t@.subrange(start as int, end as int)),
{
    let ghost l = t@.subrange(start as int, end as int);
    let mut i: usize = start;
    while i < end && is_space_char(t[i])
        invariant
            start <= i <= end <= t@.len(),
            l == t@.subrange(start as int, end as int),
            first_non_space(l, 0) == first_non_space(l, i - start),
        decreases end - i,
    {
        i = i + 1;
    }
    i < end && t[i] != '#'
}

/// The kept lines of a key file, joined.
fn key_lines(t: &[char]) -> (r: Vec<char>)
    ensures
        r@ == key_lines_from(t@, 0),
{
    let mut out: Vec<char> = Vec::new();
    let mut pos: usize = 0;
    while pos < t.len()
        invariant
            pos <= t@.len(),
            out@ + key_lines_from(t@, pos as int) == key_lines_from(t@, 0),
        decreases t@.len() - pos,
    {
        let mut e: usize = pos;
        while e < t.len() && t[e] != '\n'
            invariant
                pos <= e <= t@.len(),
                line_end(t@, pos as int) == line_end(t@, e as int),
            decreases t@.len() - e,
        {
            e = e + 1;
        }
        let text_end: usize = if e < t.len() && e > pos && t[e - 1] == '\r' {
            e - 1
        } else {
            e
        };
        let ghost before = out@;
        let ghost l = t@.subrange(pos as int, text_end as int);
        if key_line_kept(t, pos, text_end) {
            let mut k: usize = pos;
            while k < text_end
                invariant
                    pos <= k <= text_end <= t@.len(),
                    out@ == before + t@.subrange(pos as int, k as int),
                decreases text_end - k,
            {
                out.push(t[k]);
                k = k + 1;
                assert(out@ =~= before + t@.subrange(pos as int, k as int));
            }
            assert(t@.subrange(pos as int, k as int) =~= l);
        } else {
            assert(out@ =~= before + Seq::<char>::empty());
        }
        assert(before + key_lines_from(t@, pos as int) =~= out@ + key_lines_from(
            t@,
            e as int + 1,
        ));
        if e == t.len() {
            pos = e;
        } else {
            pos = e + 1;
        }
    }
    assert(out@ =~= out@ + key_lines_from(t@, pos as int));
    out
}

/// `l` without the white space at either end.
fn trim(l: &[char]) -> (r: Vec<char>)
    ensures
        r@ == trim_spec(l@),
{
    let mut s: usize = 0;
    while s < l.len() && is_space_char(l[s])
        invariant
            s <= l@.len(),
            first_non_space(l@, 0) == first_non_space(l@, s as int),
        decreases l@.len() - s,
    {
        s = s + 1;
    }
    let mut out: Vec<char> = Vec::new();
    if s >= l.len() {
        assert(out@ =~= trim_spec(l@));
        return out;
    }
    let mut e: usize = l.len();
    proof {
        trailing_spaces_bounds(l@, l@.len() as int);
    }
    while e > s && is_space_char(l[e - 1])
        invariant
            s < l@.len(),
            !is_space(l@[s as int]),
            s < e <= l@.len(),
            l@.len() - trailing_spaces(l@, l@.len() as int) == e - trailing_spaces(l@, e as int),
        decreases e,
    {
        e = e - 1;
    }
    assert(trailing_spaces(l@, e as int) == 0);
    let mut k: usize = s;
    while k < e
        invariant
            s <= k <= e <= l@.len(),
            out@ == l@.subrange(s as int, k as int),
        decreases e - k,
    {
        out.push(l[k]);
        k = k + 1;
        assert(out@ =~= l@.subrange(s as int, k as int));
    }
    out
}

/// Why a key file gave no key.
#[derive(Clone, Copy, Debug, PartialEq, Eq, Structural)]
pub enum KeyFileError {
    /// What is left of the file is not standard base64.
    Base64,
}

/// The private key bytes that the text of a key file holds: the kept lines,
/// joined and trimmed, decoded from base64.
pub fn private_key_from_text(text: &[char]) -> (r: Result<Vec<u8>, KeyFileError>)
    ensures
        match r {
            Ok(k) => base64_standard_decode(key_text_spec(text@)) == Some(k@),
            Err(_) => base64_standard_decode(key_text_spec(text@)) is None,
        },
{
    let joined = key_lines(text);
    let b64 = trim(joined.as_slice());
    match base64_decode(b64.as_slice()) {
        Some(k) => Ok(k),
        None => Err(KeyFileError::Base64),
    }
}

} // verus!
