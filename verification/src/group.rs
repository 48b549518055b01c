//! The trusted boundary to the Ristretto group and the system's random
//! source.
//!
//! Ristretto (curve25519_dalek) is a cyclic group of prime order, so every
//! point is a unique scalar multiple of a generator. Each opaque value is
//! therefore modelled by one natural number below the group order: a scalar
//! by its residue, a point by its exponent with respect to the standard base
//! point, and a multiplication table by the exponent of the point it was
//! built for. Each wrapper states how the call moves those numbers; nothing
//! else about the curve is assumed.
use vstd::prelude::*;

use curve25519_dalek::ristretto::{RistrettoBasepointTable, RistrettoPoint};
use curve25519_dalek::scalar::Scalar;
use ring::rand::SystemRandom;

use crate::algebra::{add_mod, group_order, mul_mod, sub_mod};
use crate::errors::OtError;

verus! {

#[verifier::external_type_specification]
#[verifier::external_body]
pub struct ExScalar(Scalar);

#[verifier::external_type_specification]
#[verifier::external_body]
pub struct ExRistrettoPoint(RistrettoPoint);

#[verifier::external_type_specification]
#[verifier::external_body]
pub struct ExRistrettoBasepointTable(RistrettoBasepointTable);

#[verifier::external_type_specification]
#[verifier::external_body]
pub struct ExSystemRandom(SystemRandom);

/// The residue of a scalar modulo the group order.
pub uninterp spec fn scalar_val(s: Scalar) -> nat;

/// The exponent of a point: the unique `e` below the group order with
/// `p == e·B` for the standard base point `B`.
pub uninterp spec fn point_val(p: RistrettoPoint) -> nat;

/// The exponent of the point a precomputed multiplication table was built
/// for.
pub uninterp spec fn table_val(t: RistrettoBasepointTable) -> nat;

/// The canonical compressed encoding of the point with exponent `e`.
pub uninterp spec fn point_encoding(e: nat) -> Seq<u8>;

/// Relies on ring's `SystemRandom::new`: a handle to the system's
/// cryptographically secure random source.
#[verifier::external_body]
pub(crate) fn new_system_random() -> SystemRandom {
    SystemRandom::new()
}

/// Relies on ring's `SecureRandom::fill` for `SystemRandom`: on success the
/// buffer holds fresh entropy. Nothing is promised of the bytes drawn, and
/// success is not owed: a failed draw is reported, never papered over.
#[verifier::external_body]
pub(crate) fn random_bytes_32(rng: &SystemRandom) -> (r: Result<[u8; 32], OtError>)
    ensures
        r matches Err(e) ==> e == OtError::RandomGenerationFailure,
{
    let mut bytes = [0u8; 32];
    match ring::rand::SecureRandom::fill(rng, &mut bytes) {
        Ok(()) => Ok(bytes),
        Err(_) => Err(OtError::RandomGenerationFailure),
    }
}

/// Relies on curve25519_dalek's `Scalar::from_bytes_mod_order`: it reduces a
/// 256-bit little-endian integer modulo the group order, so the residue of
/// the result is below the group order.
#[verifier::external_body]
pub(crate) fn scalar_from_bytes(bytes: [u8; 32]) -> (r: Scalar)
    ensures
        scalar_val(r) < group_order(),
{
    Scalar::from_bytes_mod_order(bytes)
}

/// Relies on curve25519_dalek's `From<u32>` for `Scalar`: it embeds the
/// integer, and every `u32` is below the group order (which exceeds 2^252),
/// so the residue is the integer itself.
#[verifier::external_body]
pub(crate) fn scalar_from_u32(v: u32) -> (r: Scalar)
    ensures
        scalar_val(r) == v as nat,
{
    Scalar::from(v)
}

/// Relies on curve25519_dalek's `Mul` of `&Scalar` and `&RistrettoPoint`:
/// scalar multiplication in a cyclic group multiplies exponents modulo the
/// group order.
#[verifier::external_body]
pub(crate) fn scalar_mul_point(s: &Scalar, p: &RistrettoPoint) -> (r: RistrettoPoint)
    ensures
        point_val(r) == mul_mod(scalar_val(*s), point_val(*p)),
{
    s * p
}

/// Relies on curve25519_dalek's `Mul` of `&Scalar` and
/// `&RistrettoBasepointTable`: it multiplies the table's base point by the
/// scalar, a table-accelerated scalar multiplication.
#[verifier::external_body]
pub(crate) fn scalar_mul_table(s: &Scalar, t: &RistrettoBasepointTable) -> (r: RistrettoPoint)
    ensures
        point_val(r) == mul_mod(scalar_val(*s), table_val(*t)),
{
    s * t
}

/// Relies on curve25519_dalek's `Add` of `&RistrettoPoint`: group addition
/// adds exponents modulo the group order.
#[verifier::external_body]
pub(crate) fn point_plus(p: &RistrettoPoint, q: &RistrettoPoint) -> (r: RistrettoPoint)
    ensures
        point_val(r) == add_mod(point_val(*p), point_val(*q)),
{
    p + q
}

/// Relies on curve25519_dalek's `Sub` of `&RistrettoPoint`: group
/// subtraction subtracts exponents modulo the group order.
#[verifier::external_body]
pub(crate) fn point_minus(p: &RistrettoPoint, q: &RistrettoPoint) -> (r: RistrettoPoint)
    ensures
        point_val(r) == sub_mod(point_val(*p), point_val(*q)),
{
    p - q
}

/// Relies on `RistrettoPoint::compress` and `CompressedRistretto::as_bytes`:
/// the canonical 32-byte encoding of the group element, a function of the
/// element alone.
#[verifier::external_body]
pub(crate) fn compress_point(p: &RistrettoPoint) -> (r: Vec<u8>)
    ensures
        r@ == point_encoding(point_val(*p)),
        r@.len() == 32,
{
    p.compress().as_bytes().to_vec()
}

/// Relies on the derived `Clone` of `RistrettoBasepointTable`: the copy is a
/// table of multiples of the same base point.
#[verifier::external_body]
pub(crate) fn clone_table(t: &RistrettoBasepointTable) -> (r: RistrettoBasepointTable)
    ensures
        table_val(r) == table_val(*t),
{
    t.clone()
}

} // verus!
