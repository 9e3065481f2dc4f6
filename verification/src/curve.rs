//! Trusted boundary around the external elliptic-curve library.
//!
//! The field arithmetic, the group law, point compression and decompression
//! are the curve library's business and are not verified here.  Each function
//! below wraps exactly one call into that library and states, over the
//! uninterpreted names declared beside it, what the call's source shows.
//! Every result wrapped here is a deterministic function of the wrapped
//! call's arguments alone.

use vstd::prelude::*;

use curve25519_dalek::edwards::CompressedEdwardsY;
use curve25519_dalek::edwards::EdwardsPoint;
use curve25519_dalek::ristretto::CompressedRistretto;
use curve25519_dalek::ristretto::RistrettoPoint;
use curve25519_dalek::traits::Identity;
use curve25519_dalek::traits::IsIdentity;
use subtle::ConstantTimeEq;

verus! {

#[verifier::external_type_specification]
#[verifier::external_body]
pub struct ExEdwardsPoint(EdwardsPoint);

#[verifier::external_type_specification]
#[verifier::external_body]
pub struct ExRistrettoPoint(RistrettoPoint);

/// The result of Edwards decompression of a 32-byte encoding: `Some` of the
/// decoded point exactly when the bytes encode a y-coordinate that lies on
/// the curve, `None` otherwise.
pub uninterp spec fn edwards_decompression(s: Seq<u8>) -> Option<EdwardsPoint>;

/// The result of multiplying an Edwards point by the curve's cofactor.
pub uninterp spec fn cofactor_cleared(p: EdwardsPoint) -> EdwardsPoint;

/// Whether an Edwards point is the group's identity element.
pub uninterp spec fn is_identity_point(p: EdwardsPoint) -> bool;

/// The result of prime-order (Ristretto) decompression of a 32-byte
/// encoding: `Some` of the decoded point exactly when the bytes are the
/// canonical encoding of a member of the prime-order group, `None` otherwise.
pub uninterp spec fn ristretto_decompression(s: Seq<u8>) -> Option<RistrettoPoint>;

/// The canonical compressed encoding of the prime-order group's identity
/// element: thirty-two zero bytes.
pub open spec fn identity_encoding() -> Seq<u8> {
    Seq::new(32, |i: int| 0u8)
}

/// Relies on `curve25519_dalek::edwards::CompressedEdwardsY::decompress`:
/// the outcome is determined by the encoded bytes alone, and decompression
/// performs the on-curve check (it fails when the encoded y-coordinate has
/// no corresponding x on the curve).
#[verifier::external_body]
pub(crate) fn decompress_edwards(bytes: &[u8; 32]) -> (r: Option<EdwardsPoint>)
    ensures
        r == edwards_decompression(bytes@),
{
    CompressedEdwardsY(*bytes).decompress()
}

/// Relies on `curve25519_dalek::edwards::EdwardsPoint::mul_by_cofactor`:
/// scalar multiplication of the point by the curve's cofactor (eight),
/// a function of the point alone.
#[verifier::external_body]
pub(crate) fn clear_cofactor(p: &EdwardsPoint) -> (r: EdwardsPoint)
    ensures
        r == cofactor_cleared(*p),
{
    p.mul_by_cofactor()
}

/// Relies on `curve25519_dalek::traits::IsIdentity::is_identity` for
/// `EdwardsPoint`: a constant-time comparison of the point against the
/// group identity, a function of the point alone.
#[verifier::external_body]
pub(crate) fn point_is_identity(p: &EdwardsPoint) -> (r: bool)
    ensures
        r == is_identity_point(*p),
{
    p.is_identity()
}

/// Relies on `curve25519_dalek::ristretto::CompressedRistretto::decompress`:
/// the outcome is determined by the encoded bytes alone; it succeeds exactly
/// on canonical encodings of prime-order group members, so on-curve and
/// subgroup membership need no separate check.
#[verifier::external_body]
pub(crate) fn decompress_ristretto(bytes: &[u8; 32]) -> (r: Option<RistrettoPoint>)
    ensures
        r == ristretto_decompression(bytes@),
{
    CompressedRistretto(*bytes).decompress()
}

/// Relies on `curve25519_dalek::traits::Identity` for `CompressedRistretto`,
/// whose identity encoding is the all-zero byte string.
#[verifier::external_body]
pub(crate) fn identity_encoding_bytes() -> (r: [u8; 32])
    ensures
        r@ == identity_encoding(),
{
    CompressedRistretto::identity().to_bytes()
}

/// Relies on `subtle::ConstantTimeEq::ct_eq` on `CompressedRistretto`
/// (a byte-by-byte comparison whose running time does not depend on where
/// the inputs first differ): true exactly when the two byte strings are
/// equal.
#[verifier::external_body]
pub(crate) fn ct_bytes_eq(a: &[u8; 32], b: &[u8; 32]) -> (r: bool)
    ensures
        r == (a@ == b@),
{
    CompressedRistretto(*a).ct_eq(&CompressedRistretto(*b)).into()
}

} // verus!
