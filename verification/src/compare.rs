//! Equality of two secret byte buffers, decided without a timing side channel.

use vstd::prelude::*;

verus! {

/// Byte-for-byte agreement of two byte sequences: the same length, and the
/// same byte at every position. This is what both comparators decide.
pub open spec fn bytes_match(a: Seq<u8>, b: Seq<u8>) -> bool {
    a.len() == b.len() && forall|i: int| 0 <= i < a.len() ==> a[i] == b[i]
}

/// Byte-for-byte agreement is exactly sequence equality.
pub proof fn lemma_bytes_match_is_eq(a: Seq<u8>, b: Seq<u8>)
    ensures
        bytes_match(a, b) <==> a == b,
{
    if bytes_match(a, b) {
        assert(a =~= b);
    }
}

/// Every byte sequence matches itself.
pub proof fn lemma_match_reflexive(x: Seq<u8>)
    ensures
        bytes_match(x, x),
{
}

/// Sequences of different lengths never match, even when one is a prefix of
/// the other.
pub proof fn lemma_match_length_mismatch(a: Seq<u8>, b: Seq<u8>)
    requires
        a.len() != b.len(),
    ensures
        !bytes_match(a, b),
{
}

/// Equal-length sequences that differ in exactly one position do not match,
/// wherever that position lies.
pub proof fn lemma_match_single_byte(a: Seq<u8>, b: Seq<u8>, i: int)
    requires
        a.len() == b.len(),
        0 <= i < a.len(),
        a[i] != b[i],
        forall|j: int| 0 <= j < a.len() && j != i ==> a[j] == b[j],
    ensures
        !bytes_match(a, b),
{
    if bytes_match(a, b) {
        assert(a[i] == b[i]);
    }
}

/// Decide whether two byte buffers hold the same bytes, in time that depends
/// only on their lengths.
///
/// After the length check (length is treated as non-secret), the loop visits
/// every position exactly once and folds the XOR of each byte pair into an
/// accumulator with bitwise OR. The accumulator is zero at the end exactly
/// when every pair agreed, so no branch and no early exit depends on where a
/// mismatch lies.
pub fn constant_pwd_cmp(a: &[u8], b: &[u8]) -> (r: bool)
    ensures
        r == bytes_match(a@, b@),
        r == (a@ == b@),
{
    proof {
        lemma_bytes_match_is_eq(a@, b@);
    }
    if a.len() != b.len() {
        return false;
    }
    let len: usize = a.len();
    let mut acc: u8 = 0;
    let mut i: usize = 0;
    while i < len
        invariant
            len == a@.len(),
            a@.len() == b@.len(),
            i <= len,
            (acc == 0) <==> (forall|j: int| 0 <= j < i ==> a@[j] == b@[j]),
        decreases len - i,
    {
        let x: u8 = a[i];
        let y: u8 = b[i];
        let d: u8 = x ^ y;
        proof {
            assert(((x ^ y) == 0) == (x == y)) by (bit_vector);
            assert(((acc | d) == 0) == (acc == 0 && d == 0)) by (bit_vector);
        }
        acc = acc | d;
        i = i + 1;
    }
    acc == 0
}

/// Deliberately variable-time baseline: the comparison it decides is the same
/// as `constant_pwd_cmp`, but each byte pair goes through `==`, which the
/// compiler is free to turn into a data-dependent branch. It exists only as a
/// negative control for timing experiments; production callers must use
/// `constant_pwd_cmp`.
pub fn vulnerable_pwd_cmp(a: &[u8], b: &[u8]) -> (r: bool)
    ensures
        r == bytes_match(a@, b@),
        r == (a@ == b@),
{
    proof {
        lemma_bytes_match_is_eq(a@, b@);
    }
    if a.len() != b.len() {
        return false;
    }
    let len: usize = a.len();
    let mut result: bool = true;
    let mut i: usize = 0;
    while i < len
        invariant
            len == a@.len(),
            a@.len() == b@.len(),
            i <= len,
            result <==> (forall|j: int| 0 <= j < i ==> a@[j] == b@[j]),
        decreases len - i,
    {
        result = result && (a[i] == b[i]);
        i = i + 1;
    }
    result
}

} // verus!
