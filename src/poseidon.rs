use ark_bn254::Fr;
use light_poseidon::{Poseidon, PoseidonBytesHasher};
use vstd::prelude::*;

verus! {

/// The circom-compatible Poseidon hash over BN254 of two 32-byte big-endian field
/// elements, or `None` where the hash rejects an input (bytes that encode no element
/// of the field).
pub uninterp spec fn poseidon_hash(left: [u8; 32], right: [u8; 32]) -> Option<[u8; 32]>;

/// Relies on light_poseidon's `Poseidon::<Fr>::new_circom(2)` and its
/// `PoseidonBytesHasher::hash_bytes_be`: a hasher with the fixed circom parameters for
/// two inputs (width 3, 8 full and 57 partial rounds, exponent 5), whose hash of two
/// 32-byte inputs depends on those inputs alone, and which fails rather than reduce an
/// input that is not below the field's modulus.
#[verifier::external_body]
pub(crate) fn hash_pair(left: &[u8; 32], right: &[u8; 32]) -> (r: Option<[u8; 32]>)
    ensures
        r == poseidon_hash(*left, *right),
{
    match Poseidon::<Fr>::new_circom(2) {
        Ok(mut hasher) => hasher.hash_bytes_be(&[left, right]).ok(),
        Err(_) => None,
    }
}

} // verus!
