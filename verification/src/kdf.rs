//! Key derivation: a symmetric key is the SHA-256 digest of a compressed
//! group element.
use vstd::prelude::*;

use curve25519_dalek::ristretto::RistrettoPoint;

use crate::group::{compress_point, point_encoding, point_val};

verus! {

/// The SHA-256 digest of a byte sequence.
pub uninterp spec fn sha256_of(data: Seq<u8>) -> Seq<u8>;

/// The symmetric key derived from the point with exponent `e`.
pub open spec fn key_of_exp(e: nat) -> Seq<u8> {
    sha256_of(point_encoding(e))
}

/// Relies on ring's `digest::digest` with `SHA256`: a 256-bit digest, a pure
/// function of the input bytes.
#[verifier::external_body]
pub(crate) fn sha256(data: &Vec<u8>) -> (r: Vec<u8>)
    ensures
        r@ == sha256_of(data@),
        r@.len() == 32,
{
    ring::digest::digest(&ring::digest::SHA256, data.as_slice())
        .as_ref()
        .to_vec()
}

/// Derives the symmetric key for a group element: the hash of its canonical
/// compressed encoding.
pub fn derive_from_point(p: &RistrettoPoint) -> (r: Vec<u8>)
    ensures
        r@ == key_of_exp(point_val(*p)),
        r@.len() == 32,
{
    let compressed = compress_point(p);
    sha256(&compressed)
}

} // verus!
