//! Result decoding.
//!
//! Interprets a finished backend invocation — exit indicator plus captured
//! output and error bytes — under the command's declared result shape: a
//! plain record count for import commands, or an opaque serialized payload
//! for the others. A count and a failure are mutually exclusive: a count
//! exists only when the process terminated successfully and its output, after
//! trimming surrounding whitespace, is a decimal numeral; every other outcome
//! is a classified failure carrying the captured error text, or a generic
//! message when that text is empty or not decodable.

use vstd::prelude::*;
use vstd::string::StringExecFns;
use vstd::utf8::{valid_utf8, decode_utf8, encode_utf8};
use crate::errors::{BridgeError, GENERIC_BACKEND_ERROR};

verus! {

/// Whether a byte is a decimal digit.
pub open spec fn is_count_digit(b: u8) -> bool {
    48 <= b <= 57
}

/// Whether a byte is surrounding whitespace the decoder trims: space, tab,
/// line feed or carriage return.
pub open spec fn is_space_byte(b: u8) -> bool {
    b == 32 || b == 9 || b == 10 || b == 13
}

/// The bytes left after removing leading whitespace.
pub open spec fn drop_leading_spaces(s: Seq<u8>) -> Seq<u8>
    decreases s.len(),
{
    if s.len() > 0 && is_space_byte(s.first()) {
        drop_leading_spaces(s.drop_first())
    } else {
        s
    }
}

/// The bytes left after removing trailing whitespace.
pub open spec fn drop_trailing_spaces(s: Seq<u8>) -> Seq<u8>
    decreases s.len(),
{
    if s.len() > 0 && is_space_byte(s.last()) {
        drop_trailing_spaces(s.drop_last())
    } else {
        s
    }
}

/// The bytes left after removing surrounding whitespace.
pub open spec fn trimmed(s: Seq<u8>) -> Seq<u8> {
    drop_trailing_spaces(drop_leading_spaces(s))
}

/// Whether every byte is a decimal digit.
pub open spec fn all_count_digits(s: Seq<u8>) -> bool {
    forall|i: int| 0 <= i < s.len() ==> is_count_digit(s[i])
}

/// The value of a digit string read as a decimal numeral.
pub open spec fn digits_value(s: Seq<u8>) -> int
    decreases s.len(),
{
    if s.len() == 0 {
        0
    } else {
        digits_value(s.drop_last()) * 10 + (s.last() - 48)
    }
}

/// What a count-shaped output means: the decimal value of the output after
/// trimming surrounding whitespace, when that trimmed text is a non-empty
/// digit string; nothing otherwise.
pub open spec fn count_of(s: Seq<u8>) -> Option<int> {
    let t = trimmed(s);
    if t.len() > 0 && all_count_digits(t) {
        Some(digits_value(t))
    } else {
        None
    }
}

proof fn lemma_drop_leading_spaces(s: Seq<u8>, i: int)
    requires
        0 <= i <= s.len(),
        forall|k: int| 0 <= k < i ==> is_space_byte(s[k]),
        i < s.len() ==> !is_space_byte(s[i]),
    ensures
        drop_leading_spaces(s) =~= s.subrange(i, s.len() as int),
    decreases i,
{
    if i == 0 {
        assert(s.subrange(0, s.len() as int) =~= s);
    } else {
        let t = s.drop_first();
        lemma_drop_leading_spaces(t, i - 1);
        assert(t.subrange(i - 1, t.len() as int) =~= s.subrange(i, s.len() as int));
    }
}

proof fn lemma_drop_trailing_spaces(s: Seq<u8>, j: int)
    requires
        0 <= j <= s.len(),
        forall|k: int| j <= k < s.len() ==> is_space_byte(s[k]),
        j > 0 ==> !is_space_byte(s[j - 1]),
    ensures
        drop_trailing_spaces(s) =~= s.subrange(0, j),
    decreases s.len() - j,
{
    if j == s.len() {
        assert(s.subrange(0, j) =~= s);
    } else {
        let t = s.drop_last();
        lemma_drop_trailing_spaces(t, j);
        assert(t.subrange(0, j) =~= s.subrange(0, j));
    }
}

proof fn lemma_digits_value_nonneg(s: Seq<u8>)
    requires
        all_count_digits(s),
    ensures
        digits_value(s) >= 0,
    decreases s.len(),
{
    if s.len() > 0 {
        assert(all_count_digits(s.drop_last()));
        lemma_digits_value_nonneg(s.drop_last());
    }
}

proof fn lemma_digits_value_prefix(s: Seq<u8>, j: int)
    requires
        all_count_digits(s),
        0 <= j <= s.len(),
    ensures
        digits_value(s) >= digits_value(s.subrange(0, j)),
    decreases s.len() - j,
{
    if j == s.len() {
        assert(s.subrange(0, j) =~= s);
    } else {
        let p1 = s.subrange(0, j + 1);
        let p0 = s.subrange(0, j);
        assert(p1.drop_last() =~= p0);
        assert(all_count_digits(p0));
        lemma_digits_value_nonneg(p0);
        assert(digits_value(p1) >= digits_value(p0));
        lemma_digits_value_prefix(s, j + 1);
    }
}

proof fn overflow_means_no_count(s: Seq<u8>, t: Seq<u8>, prefix1: Seq<u8>, v: int)
    requires
        t == trimmed(s),
        all_count_digits(prefix1),
        digits_value(prefix1) == v,
        v > usize::MAX,
        exists|j: int|
            0 <= j <= t.len() && prefix1 =~= t.subrange(0, j),
    ensures
        !(count_of(s) matches Some(c) && c <= usize::MAX),
{
    if count_of(s) is Some {
        let j = choose|j: int| 0 <= j <= t.len() && prefix1 =~= t.subrange(0, j);
        lemma_digits_value_prefix(t, j);
        assert(digits_value(t.subrange(0, j)) == digits_value(prefix1));
    }
}

/// Whether a byte is whitespace the decoder trims.
fn is_space_b(b: u8) -> (r: bool)
    ensures
        r == is_space_byte(b),
{
    b == 32 || b == 9 || b == 10 || b == 13
}

/// Parses a count-shaped output: the decimal value of the bytes after
/// trimming surrounding whitespace. Nothing is returned when the trimmed
/// bytes are empty, hold a non-digit, or name a value too large for the
/// machine.
pub fn parse_count(bytes: &Vec<u8>) -> (r: Option<usize>)
    ensures
        r is Some <==> (count_of(bytes@) matches Some(v) && v <= usize::MAX),
        r matches Some(c) ==> count_of(bytes@) == Some(c as int),
{
    let n = bytes.len();
    let mut start: usize = 0;
    while start < n && is_space_b(bytes[start])
        invariant
            0 <= start <= n,
            n == bytes@.len(),
            forall|k: int| 0 <= k < start ==> is_space_byte(bytes@[k]),
        decreases n - start,
    {
        start = start + 1;
    }
    let mut end: usize = n;
    while end > start && is_space_b(bytes[end - 1])
        invariant
            start <= end <= n,
            n == bytes@.len(),
            forall|k: int| end <= k < n ==> is_space_byte(bytes@[k]),
        decreases end,
    {
        end = end - 1;
    }
    proof {
        lemma_drop_leading_spaces(bytes@, start as int);
        let u = bytes@.subrange(start as int, n as int);
        lemma_drop_trailing_spaces(u, end - start);
        assert(u.subrange(0, end - start) =~= bytes@.subrange(start as int, end as int));
        assert(trimmed(bytes@) == bytes@.subrange(start as int, end as int));
    }
    if start == end {
        return None;
    }
    let ghost t = bytes@.subrange(start as int, end as int);
    let mut acc: usize = 0;
    let mut k = start;
    while k < end
        invariant
            start <= k <= end <= n,
            n == bytes@.len(),
            start < end,
            t == bytes@.subrange(start as int, end as int),
            t == trimmed(bytes@),
            all_count_digits(bytes@.subrange(start as int, k as int)),
            acc == digits_value(bytes@.subrange(start as int, k as int)),
        decreases end - k,
    {
        let b = bytes[k];
        if b < 48 || b > 57 {
            proof {
                assert(t[k - start] == bytes@[k as int]);
                assert(!all_count_digits(t));
            }
            return None;
        }
        let d = (b - 48) as usize;
        let ghost prefix = bytes@.subrange(start as int, k as int);
        let ghost prefix1 = bytes@.subrange(start as int, k + 1 as int);
        proof {
            assert(prefix1.drop_last() =~= prefix);
            assert(all_count_digits(prefix1));
            assert(digits_value(prefix1) == digits_value(prefix) * 10 + (b - 48));
            assert(prefix1 =~= t.subrange(0, k + 1 - start));
        }
        let scaled = match acc.checked_mul(10) {
            Some(a) => a,
            None => {
                proof {
                    overflow_means_no_count(bytes@, t, prefix1, acc * 10 + d);
                }
                return None;
            },
        };
        acc = match scaled.checked_add(d) {
            Some(a) => a,
            None => {
                proof {
                    overflow_means_no_count(bytes@, t, prefix1, acc * 10 + d);
                }
                return None;
            },
        };
        k = k + 1;
    }
    proof {
        assert(bytes@.subrange(start as int, k as int) == t);
        assert(count_of(bytes@) == Some(digits_value(t)));
    }
    Some(acc)
}

/// What one finished backend invocation looked like from outside: whether the
/// process terminated successfully, and its captured standard output and
/// standard error streams as byte sequences.
pub struct Outcome {
    pub success: bool,
    pub stdout: Vec<u8>,
    pub stderr: Vec<u8>,
}

/// Relies on String::from_utf8: it returns Ok exactly when the bytes are
/// valid UTF-8, and the returned string is the decoding of those bytes,
/// carrying them unchanged.
#[verifier::external_body]
fn utf8_to_string(bytes: Vec<u8>) -> (r: Option<String>)
    ensures
        r is Some <==> valid_utf8(bytes@),
        r matches Some(s) ==> s@ == decode_utf8(bytes@) && encode_utf8(s@) == bytes@,
{
    String::from_utf8(bytes).ok()
}

/// The diagnostic text a failure carries: the captured error output when it
/// is non-empty and decodes as text, else a generic message.
pub open spec fn failure_message(stderr: Seq<u8>) -> Seq<char> {
    if stderr.len() > 0 && valid_utf8(stderr) {
        decode_utf8(stderr)
    } else {
        GENERIC_BACKEND_ERROR@
    }
}

/// Turns captured error output into the diagnostic text a failure carries.
pub fn failure_text(stderr: Vec<u8>) -> (r: String)
    ensures
        r@ == failure_message(stderr@),
{
    if stderr.len() == 0 {
        String::from_str(GENERIC_BACKEND_ERROR)
    } else {
        match utf8_to_string(stderr) {
            Some(s) => s,
            None => String::from_str(GENERIC_BACKEND_ERROR),
        }
    }
}

/// What a count-shaped command reports for a given exit indicator and output:
/// a count exists only for a successful termination whose output is a decimal
/// numeral; every other outcome reports nothing.
pub open spec fn count_decision(success: bool, stdout: Seq<u8>) -> Option<int> {
    if success {
        count_of(stdout)
    } else {
        None
    }
}

/// Decodes a count-shaped outcome: the number of records an import wrote, or
/// a failure carrying the captured error text.
pub fn decode_count(outcome: Outcome) -> (r: Result<usize, BridgeError>)
    ensures
        r is Ok <==> (count_decision(outcome.success, outcome.stdout@) matches Some(v) && v
            <= usize::MAX),
        r matches Ok(c) ==> count_decision(outcome.success, outcome.stdout@) == Some(c as int),
        r matches Err(e) ==> (e matches BridgeError::Backend(m) && m@ == failure_message(
            outcome.stderr@,
        )),
{
    if outcome.success {
        match parse_count(&outcome.stdout) {
            Some(c) => Ok(c),
            None => Err(BridgeError::Backend(failure_text(outcome.stderr))),
        }
    } else {
        Err(BridgeError::Backend(failure_text(outcome.stderr)))
    }
}

/// Decodes a payload-shaped outcome: the captured output passed through
/// verbatim as text, without structural validation, or a failure carrying the
/// captured error text.
pub fn decode_payload(outcome: Outcome) -> (r: Result<String, BridgeError>)
    ensures
        r is Ok <==> (outcome.success && valid_utf8(outcome.stdout@)),
        r matches Ok(p) ==> p@ == decode_utf8(outcome.stdout@) && encode_utf8(p@)
            == outcome.stdout@,
        r matches Err(e) ==> (e matches BridgeError::Backend(m) && m@ == failure_message(
            outcome.stderr@,
        )),
{
    if outcome.success {
        match utf8_to_string(outcome.stdout) {
            Some(p) => Ok(p),
            None => Err(BridgeError::Backend(failure_text(outcome.stderr))),
        }
    } else {
        Err(BridgeError::Backend(failure_text(outcome.stderr)))
    }
}

/// Law: a count a successful import reports is a non-negative integer,
/// whatever the backend printed.
pub proof fn lemma_count_nonnegative(success: bool, stdout: Seq<u8>)
    ensures
        count_decision(success, stdout) matches Some(v) ==> v >= 0,
{
    if count_decision(success, stdout) is Some {
        lemma_digits_value_nonneg(trimmed(stdout));
    }
}

/// Law: counts and failures are mutually exclusive. An invocation whose
/// process terminated unsuccessfully never decodes to a count, whatever its
/// output holds.
pub proof fn lemma_failure_never_count(success: bool, stdout: Seq<u8>)
    ensures
        !success ==> count_decision(success, stdout) is None,
{
}

} // verus!
