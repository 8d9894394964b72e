//! SHA-256, as the `sha2` crate computes it.

use sha2::{Digest, Sha256};
use vstd::prelude::*;

verus! {

/// The SHA-256 digest of `data`. The algorithm is not written out here: the
/// name stands for what `sha2` returns, which depends on the bytes alone.
pub uninterp spec fn sha256_of(data: Seq<u8>) -> Seq<u8>;

/// Hashes `data` with `sha2::Sha256::digest`.
///
/// Trusted, not proved: the thirty-two bytes returned are the SHA-256 digest
/// of `data`, the same for the same bytes on every call.
#[verifier::external_body]
pub(crate) fn sha256(data: &[u8]) -> (digest: [u8; 32])
    ensures
        digest@ == sha256_of(data@),
{
    Sha256::digest(data).into()
}

} // verus!
