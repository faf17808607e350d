//! Trusted boundary to the structured-serialization collaborator.
//!
//! Request payloads arrive in a generic binary encoding: an unsigned
//! little-endian integer is its bytes, a text value is a 4-byte
//! little-endian byte count followed by that many UTF-8 bytes, and a
//! payload must be consumed exactly.  The collaborator does the decoding;
//! the contracts here state what it returns, over the payload bytes alone.

use vstd::bytes::spec_u64_from_le_bytes;
use vstd::prelude::*;

verus! {

/// What the collaborator's text decoder yields on a payload: `Some` of the
/// decoded characters when the payload is a well-formed length-prefixed
/// UTF-8 text consuming the whole payload, `None` otherwise.  The result is
/// a function of the payload bytes alone.
pub uninterp spec fn decoded_text(bytes: Seq<u8>) -> Option<Seq<char>>;

/// The number of bytes in the UTF-8 encoding of a text, a function of the
/// characters alone.
pub uninterp spec fn utf8_len(s: Seq<char>) -> nat;

/// Relies on `u64::try_from_slice` of the borsh crate: it returns the
/// little-endian value of an exactly 8-byte payload and an error on any
/// other length.
#[verifier::external_body]
pub(crate) fn decode_u64(bytes: &[u8]) -> (r: Option<u64>)
    ensures
        match r {
            Some(x) => bytes@.len() == 8 && x == spec_u64_from_le_bytes(bytes@),
            None => bytes@.len() != 8,
        },
{
    <u64 as borsh::BorshDeserialize>::try_from_slice(bytes).ok()
}

/// Relies on `String::try_from_slice` of the borsh crate: it decodes a
/// length-prefixed UTF-8 text, requires the whole payload to be consumed,
/// and depends on the payload bytes alone.
#[verifier::external_body]
pub(crate) fn decode_string(bytes: &[u8]) -> (r: Option<String>)
    ensures
        match r {
            Some(s) => decoded_text(bytes@) == Some(s@),
            None => decoded_text(bytes@) is None,
        },
{
    <String as borsh::BorshDeserialize>::try_from_slice(bytes).ok()
}

/// Relies on `str::len` of std: a string's length in bytes is the length
/// of the UTF-8 encoding of its characters.
#[verifier::external_body]
pub(crate) fn string_utf8_len(s: &String) -> (n: usize)
    ensures
        n == utf8_len(s@),
{
    s.as_str().len()
}

/// Byte-wise equality of two byte vectors.
pub(crate) fn bytes_eq(a: &Vec<u8>, b: &Vec<u8>) -> (r: bool)
    ensures
        r == (a@ == b@),
{
    if a.len() != b.len() {
        return false;
    }
    let n = a.len();
    for i in 0..n
        invariant
            n == a@.len(),
            n == b@.len(),
            forall|j: int| 0 <= j < i ==> a@[j] == b@[j],
    {
        if a[i] != b[i] {
            return false;
        }
    }
    assert(a@ =~= b@);
    true
}

/// A copy of a byte vector.
pub(crate) fn clone_bytes(v: &Vec<u8>) -> (r: Vec<u8>)
    ensures
        r@ == v@,
{
    let mut r: Vec<u8> = Vec::new();
    let n = v.len();
    for i in 0..n
        invariant
            n == v@.len(),
            r@ =~= v@.take(i as int),
    {
        r.push(v[i]);
    }
    assert(r@ =~= v@);
    r
}

} // verus!
