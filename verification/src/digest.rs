//! SHA-1 digests of byte strings.

use sha1::Digest;
use sha1::Sha1;
use vstd::prelude::*;

verus! {

/// Length in bytes of a SHA-1 digest.
pub const DIGEST_LENGTH: usize = 20;

/// The SHA-1 digest of a byte string.
pub uninterp spec fn sha1_of(data: Seq<u8>) -> Seq<u8>;

/// Calls `sha1::Sha1::digest` (the `digest` function of the `Digest` trait)
/// on `data` and copies the output array into a vector.
///
/// Trusted: the result is the SHA-1 digest of `data`, a function of the bytes
/// alone, and it is 20 bytes long (the output size of `Sha1` is `U20`).
#[verifier::external_body]
pub(crate) fn sha1_digest(data: &[u8]) -> (digest: Vec<u8>)
    ensures
        digest@ == sha1_of(data@),
        digest@.len() == DIGEST_LENGTH,
{
    Sha1::digest(data).to_vec()
}

/// Whether two byte strings are equal.
pub fn bytes_equal(a: &[u8], b: &[u8]) -> (same: bool)
    ensures
        same == (a@ == b@),
{
    if a.len() != b.len() {
        return false;
    }
    let mut i: usize = 0;
    while i < a.len()
        invariant
            i <= a.len(),
            a.len() == b.len(),
            forall|j: int| 0 <= j < i ==> a@[j] == b@[j],
        decreases a.len() - i,
    {
        if a[i] != b[i] {
            return false;
        }
        i += 1;
    }
    assert(a@ =~= b@);
    true
}

/// Whether the SHA-1 digest of `data` is `expected`.
pub fn digest_matches(data: &[u8], expected: &[u8]) -> (same: bool)
    ensures
        same == (sha1_of(data@) == expected@),
{
    let digest = sha1_digest(data);
    bytes_equal(digest.as_slice(), expected)
}

} // verus!
