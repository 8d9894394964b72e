//! The proof-of-work predicate: which nonce is accepted after which.

use crate::sha256::{sha256, sha256_of};
use crate::text::hex_lower;
use vstd::prelude::*;

verus! {

/// The square of `x` reduced modulo 2^64.
pub open spec fn wrapping_square(x: u64) -> u64 {
    ((x as nat * x as nat) % 0x1_0000_0000_0000_0000nat) as u64
}

/// The difference `a - b` reduced modulo 2^64.
pub open spec fn wrapping_difference(a: u64, b: u64) -> u64 {
    ((a as int - b as int) % 0x1_0000_0000_0000_0000int) as u64
}

/// What is hashed for a pair of nonces: the candidate's square minus the
/// previous nonce's square, both squares and the difference taken modulo 2^64.
pub open spec fn proof_gap(previous_proof: u64, candidate: u64) -> u64 {
    wrapping_difference(wrapping_square(candidate), wrapping_square(previous_proof))
}

/// The eight bytes of `x`, the most significant first.
pub open spec fn be_bytes(x: u64) -> Seq<u8> {
    seq![
        (x as nat / 0x100_0000_0000_0000) as u8,
        (x as nat / 0x1_0000_0000_0000 % 256) as u8,
        (x as nat / 0x100_0000_0000 % 256) as u8,
        (x as nat / 0x1_0000_0000 % 256) as u8,
        (x as nat / 0x100_0000 % 256) as u8,
        (x as nat / 0x1_0000 % 256) as u8,
        (x as nat / 0x100 % 256) as u8,
        (x as nat % 256) as u8,
    ]
}

/// Whether hexadecimal text begins with the four characters `0000`.
pub open spec fn has_target_prefix(hex: Seq<char>) -> bool {
    hex.len() >= 4 && hex.take(4) == seq!['0', '0', '0', '0']
}

/// The proof-of-work predicate: the SHA-256 digest of the big-endian bytes of
/// the pair's gap, written in lowercase hexadecimal, begins with `0000`.
pub open spec fn accepts(previous_proof: u64, candidate: u64) -> bool {
    has_target_prefix(hex_lower(sha256_of(be_bytes(proof_gap(previous_proof, candidate)))))
}

/// Whether `proof` is the least nonce, from 1 upwards, accepted after
/// `previous_proof`.
pub open spec fn is_least_proof(previous_proof: u64, proof: u64) -> bool {
    &&& proof >= 1
    &&& accepts(previous_proof, proof)
    &&& forall|smaller: u64| 1 <= smaller < proof ==> !accepts(previous_proof, smaller)
}

/// Whether no nonce from 1 upwards is accepted after `previous_proof`.
pub open spec fn no_proof_exists(previous_proof: u64) -> bool {
    forall|candidate: u64| candidate >= 1 ==> !accepts(previous_proof, candidate)
}

/// Whether `found` is what a search after `previous_proof` comes to: the
/// least accepted nonce, or nothing where no nonce is accepted.
pub open spec fn is_search_result(previous_proof: u64, found: Option<u64>) -> bool {
    match found {
        Some(proof) => is_least_proof(previous_proof, proof),
        None => no_proof_exists(previous_proof),
    }
}

/// Squares `x` with wrap-around at 64 bits.
pub fn square_wrapping(x: u64) -> (square: u64)
    ensures
        square == wrapping_square(x),
{
    x.wrapping_mul(x)
}

/// Computes the gap of a pair of nonces with wrap-around at 64 bits.
pub fn gap(previous_proof: u64, candidate: u64) -> (diff: u64)
    ensures
        diff == proof_gap(previous_proof, candidate),
{
    square_wrapping(candidate).wrapping_sub(square_wrapping(previous_proof))
}

/// Splits `x` into its eight bytes, the most significant first.
pub fn to_be_bytes(x: u64) -> (bytes: [u8; 8])
    ensures
        bytes@ == be_bytes(x),
{
    let bytes: [u8; 8] = [
        (x / 0x100_0000_0000_0000) as u8,
        (x / 0x1_0000_0000_0000 % 256) as u8,
        (x / 0x100_0000_0000 % 256) as u8,
        (x / 0x1_0000_0000 % 256) as u8,
        (x / 0x100_0000 % 256) as u8,
        (x / 0x1_0000 % 256) as u8,
        (x / 0x100 % 256) as u8,
        (x % 256) as u8,
    ];
    assert(bytes@ =~= be_bytes(x));
    bytes
}

/// Tests a digest against the target without writing it out as text: its
/// hexadecimal form begins with `0000` exactly when its first two bytes are 0.
pub fn meets_target(digest: &[u8; 32]) -> (met: bool)
    ensures
        met == has_target_prefix(hex_lower(digest@)),
{
    let met = digest[0] == 0 && digest[1] == 0;
    proof {
        let hex = hex_lower(digest@);
        let zeros = seq!['0', '0', '0', '0'];
        if met {
            assert(hex.take(4) =~= zeros);
        } else {
            assert(hex.take(4)[0] == hex[0]);
            assert(hex.take(4)[1] == hex[1]);
            assert(hex.take(4)[2] == hex[2]);
            assert(hex.take(4)[3] == hex[3]);
        }
    }
    met
}

/// Decides the proof-of-work predicate for a pair of nonces.
pub fn proof_accepted(previous_proof: u64, candidate: u64) -> (accepted: bool)
    ensures
        accepted == accepts(previous_proof, candidate),
{
    let bytes = to_be_bytes(gap(previous_proof, candidate));
    let digest = sha256(bytes.as_slice());
    meets_target(&digest)
}

} // verus!
