//! The content digest: the BLAKE3 hash of the raw feedstock.
//!
//! The hash itself is computed by the `blake3` crate and is not verified
//! here. What this crate proves about a digest rests on the one contract
//! below.

use vstd::prelude::*;

verus! {

/// The 32-byte BLAKE3 hash of `data`, as `blake3::Hasher` computes it.
pub uninterp spec fn blake3_digest(data: Seq<u8>) -> Seq<u8>;

/// Feeds `data` to a fresh `blake3::Hasher` (`new`, `update`, `finalize`)
/// and returns the bytes of the resulting hash.
///
/// Trusted, not proved: the result is the BLAKE3 hash of `data`. It depends
/// on the bytes of `data` alone; a fresh hasher accepts input of any length.
#[verifier::external_body]
pub(crate) fn blake3_hash(data: &[u8]) -> (digest: [u8; 32])
    ensures
        digest@ == blake3_digest(data@),
{
    let mut hasher = blake3::Hasher::new();
    hasher.update(data);
    let hash = hasher.finalize();
    *hash.as_bytes()
}

/// Hashing is a function of the bytes: equal inputs have equal digests.
pub proof fn lemma_digest_deterministic(first: Seq<u8>, second: Seq<u8>)
    requires
        first == second,
    ensures
        blake3_digest(first) == blake3_digest(second),
{
}

} // verus!
