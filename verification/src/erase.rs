//! Secure erasure of a secret buffer once it is no longer needed.

use vstd::prelude::*;
use zeroize::Zeroize;

verus! {

/// The all-zero byte sequence of a given length.
pub open spec fn zeroed(len: nat) -> Seq<u8> {
    Seq::new(len, |i: int| 0u8)
}

/// Every byte of the sequence is zero.
pub open spec fn all_zero(s: Seq<u8>) -> bool {
    forall|i: int| 0 <= i < s.len() ==> s[i] == 0
}

/// A zeroed sequence has the requested length and is all zero.
pub proof fn lemma_zeroed_is_all_zero(len: nat)
    ensures
        zeroed(len).len() == len,
        all_zero(zeroed(len)),
{
}

/// Erasure is idempotent: scrubbing a buffer that already holds the result
/// of a scrub leaves it exactly as it was — the same length, all zero.
pub proof fn lemma_erase_idempotent(len: nat)
    ensures
        zeroed(zeroed(len).len()) == zeroed(len),
{
    assert(zeroed(zeroed(len).len()) =~= zeroed(len));
}

/// Relies on zeroize::Zeroize for `[u8]`: every element of the slice is
/// overwritten with zero through volatile writes the optimizer may not
/// elide, and the slice keeps its length.
#[verifier::external_body]
fn zeroize_in_place(pwd: &mut [u8])
    ensures
        final(pwd)@ == zeroed(old(pwd)@.len()),
{
    pwd.zeroize()
}

/// Scrub a secret buffer: afterwards every byte is zero and the length is
/// unchanged, whatever the buffer held before — including when it was empty
/// or already zero. The writes reach memory even though the caller never
/// reads the buffer again, so no copy of the secret outlives the call.
pub fn zeroize_memory(pwd: &mut [u8])
    ensures
        final(pwd)@ == zeroed(old(pwd)@.len()),
        final(pwd)@.len() == old(pwd)@.len(),
        all_zero(final(pwd)@),
{
    zeroize_in_place(pwd);
    proof {
        lemma_zeroed_is_all_zero(old(pwd)@.len());
    }
}

} // verus!
