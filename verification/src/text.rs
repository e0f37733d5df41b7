//! UTF-8 validation of byte strings that come from the analyser.

use vstd::prelude::*;
use vstd::string::StringSliceAdditionalSpecFns;
use vstd::utf8::{decode_utf8, encode_utf8, encode_utf8_decode_utf8, valid_utf8};

verus! {

/// Why a byte string is not UTF-8.
#[derive(Debug, Clone, Copy, PartialEq, Eq)]
pub struct Utf8Error {
    /// Length of the longest prefix that is valid UTF-8.
    pub valid_up_to: usize,
    /// Length of the offending sequence, or `None` when the input ends in the
    /// middle of a character.
    pub error_len: Option<usize>,
}

/// The length that the standard decoder reports for the invalid sequence at
/// the end of the longest valid prefix of `bytes`.
pub uninterp spec fn utf8_error_len(bytes: Seq<u8>) -> Option<usize>;

/// `n` is the length of the longest prefix of `bytes` that is valid UTF-8.
pub open spec fn is_valid_up_to(bytes: Seq<u8>, n: int) -> bool {
    &&& 0 <= n <= bytes.len()
    &&& valid_utf8(bytes.subrange(0, n))
    &&& forall|j: int| n < j <= bytes.len() ==> !valid_utf8(#[trigger] bytes.subrange(0, j))
}

/// The failure reported for a byte string that is not UTF-8.
pub open spec fn utf8_failure(bytes: Seq<u8>) -> Utf8Error {
    Utf8Error {
        valid_up_to: choose|n: usize| is_valid_up_to(bytes, n as int),
        error_len: utf8_error_len(bytes),
    }
}

/// The longest valid prefix has one length only.
pub proof fn lemma_valid_up_to_unique(bytes: Seq<u8>, n: int, m: int)
    requires
        is_valid_up_to(bytes, n),
        is_valid_up_to(bytes, m),
    ensures
        n == m,
{
    if n < m {
        assert(!valid_utf8(bytes.subrange(0, m)));
    } else if m < n {
        assert(!valid_utf8(bytes.subrange(0, n)));
    }
}

/// Calls `core::str::from_utf8`. Trusted: it succeeds exactly on valid UTF-8
/// and then returns the same bytes as text; otherwise the error carries the
/// length of the longest valid prefix, as `Utf8Error::valid_up_to` documents,
/// and the length that `Utf8Error::error_len` reports.
#[verifier::external_body]
fn decode(bytes: &[u8]) -> (r: Result<&str, Utf8Error>)
    ensures
        match r {
            Ok(s) => valid_utf8(bytes@) && s.spec_bytes() == bytes@,
            Err(e) => {
                &&& !valid_utf8(bytes@)
                &&& is_valid_up_to(bytes@, e.valid_up_to as int)
                &&& e.error_len == utf8_error_len(bytes@)
            },
        },
{
    match core::str::from_utf8(bytes) {
        Ok(s) => Ok(s),
        Err(e) => Err(Utf8Error { valid_up_to: e.valid_up_to(), error_len: e.error_len() }),
    }
}

/// Reads `bytes` as text. Succeeds exactly when they are valid UTF-8.
pub fn from_utf8(bytes: &[u8]) -> (r: Result<&str, Utf8Error>)
    ensures
        r is Ok <==> valid_utf8(bytes@),
        r is Ok ==> r->Ok_0@ == decode_utf8(bytes@) && r->Ok_0.spec_bytes() == bytes@,
        r is Err ==> r->Err_0 == utf8_failure(bytes@),
{
    let r = decode(bytes);
    proof {
        match r {
            Ok(s) => {
                encode_utf8_decode_utf8(s@);
            },
            Err(e) => {
                let n = choose|n: usize| is_valid_up_to(bytes@, n as int);
                lemma_valid_up_to_unique(bytes@, e.valid_up_to as int, n as int);
            },
        }
    }
    r
}

/// Compares two byte strings.
pub fn bytes_eq(a: &[u8], b: &[u8]) -> (r: bool)
    ensures
        r == (a@ == b@),
{
    if a.len() != b.len() {
        return false;
    }
    let mut i: usize = 0;
    while i < a.len()
        invariant
            a.len() == b.len(),
            0 <= i <= a.len(),
            forall|k: int| 0 <= k < i ==> a@[k] == b@[k],
        decreases a.len() - i,
    {
        if a[i] != b[i] {
            return false;
        }
        i += 1;
    }
    assert(a@ =~= b@);
    true
}

/// Two texts with the same encoding are the same text.
pub proof fn lemma_encoding_injective(a: Seq<char>, b: Seq<char>)
    requires
        encode_utf8(a) == encode_utf8(b),
    ensures
        a == b,
{
    encode_utf8_decode_utf8(a);
    encode_utf8_decode_utf8(b);
}

/// Compares two texts.
pub fn str_eq(a: &str, b: &str) -> (r: bool)
    ensures
        r == (a@ == b@),
{
    let r = bytes_eq(a.as_bytes(), b.as_bytes());
    proof {
        if r {
            lemma_encoding_injective(a@, b@);
        }
    }
    r
}

} // verus!
