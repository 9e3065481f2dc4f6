//! The two validation procedures and the laws that hold of them.

use vstd::prelude::*;

use curve25519_dalek::edwards::EdwardsPoint;
use curve25519_dalek::ristretto::RistrettoPoint;

use crate::curve::clear_cofactor;
use crate::curve::cofactor_cleared;
use crate::curve::ct_bytes_eq;
use crate::curve::decompress_edwards;
use crate::curve::decompress_ristretto;
use crate::curve::edwards_decompression;
use crate::curve::identity_encoding;
use crate::curve::identity_encoding_bytes;
use crate::curve::is_identity_point;
use crate::curve::point_is_identity;
use crate::curve::ristretto_decompression;

verus! {

/// The outcome of cofactor-based validation, as a function of the encoded
/// bytes alone: the decompressed point, unless decompression fails or the
/// point collapses to the identity once the cofactor is cleared.
pub open spec fn cofactor_validation(s: Seq<u8>) -> Option<EdwardsPoint> {
    match edwards_decompression(s) {
        Some(p) => if is_identity_point(cofactor_cleared(p)) {
            None
        } else {
            Some(p)
        },
        None => None,
    }
}

/// The outcome of prime-order validation, as a function of the encoded
/// bytes alone: the decompressed point, unless the bytes are the canonical
/// identity encoding or fail prime-order decompression.
pub open spec fn prime_order_validation(s: Seq<u8>) -> Option<RistrettoPoint> {
    if s == identity_encoding() {
        None
    } else {
        ristretto_decompression(s)
    }
}

/// Decision step of the cofactor validator: keep the decompressed point
/// only when clearing the cofactor did not collapse it to the identity.
/// Rejection discards the point, so the caller learns nothing about why.
pub fn accept_unless_cleared_to_identity(
    point: EdwardsPoint,
    cleared_is_identity: bool,
) -> (r: Option<EdwardsPoint>)
    ensures
        r == (if cleared_is_identity {
            Option::<EdwardsPoint>::None
        } else {
            Option::Some(point)
        }),
{
    if cleared_is_identity {
        None
    } else {
        Some(point)
    }
}

/// Validates a compressed Edwards encoding (the y-coordinate and the sign
/// of x) by cofactor multiplication: decompress, multiply by the curve's
/// cofactor, and reject when the product is the group identity.  On success
/// the point returned is the decompressed point itself, not the cofactor
/// multiple.  Invalid encodings and failed cofactor checks both yield
/// `None`; the two causes are indistinguishable by design.
pub fn mult_by_cofactor_and_validate(key: &[u8; 32]) -> (r: Option<EdwardsPoint>)
    ensures
        r == cofactor_validation(key@),
{
    let point = match decompress_edwards(key) {
        Some(p) => p,
        None => {
            return None;
        },
    };
    let cleared = clear_cofactor(&point);
    let cleared_is_identity = point_is_identity(&cleared);
    accept_unless_cleared_to_identity(point, cleared_is_identity)
}

/// Validates a compressed prime-order (Ristretto) encoding: reject the
/// canonical identity encoding by a constant-time byte comparison, then
/// decompress, which itself enforces both on-curve and prime-order-subgroup
/// membership.  Identity rejection and decompression failure both yield
/// `None`; the two causes are indistinguishable by design.
pub fn decaf_decompress(key: &[u8; 32]) -> (r: Option<RistrettoPoint>)
    ensures
        r == prime_order_validation(key@),
{
    let ident = identity_encoding_bytes();
    if ct_bytes_eq(key, &ident) {
        None
    } else {
        decompress_ristretto(key)
    }
}

/// Law: the canonical identity encoding is always rejected by the
/// prime-order validator.
pub proof fn lemma_prime_order_rejects_identity(s: Seq<u8>)
    requires
        s == identity_encoding(),
    ensures
        prime_order_validation(s) is None,
{
}

/// Law: any encoding that does not decompress to a curve point is rejected
/// by the cofactor validator.
pub proof fn lemma_cofactor_rejects_invalid(s: Seq<u8>)
    requires
        edwards_decompression(s) is None,
    ensures
        cofactor_validation(s) is None,
{
}

/// Law: an encoding of a low-order point — one whose cofactor multiple is
/// the identity — is rejected by the cofactor validator.
pub proof fn lemma_cofactor_rejects_low_order(s: Seq<u8>, p: EdwardsPoint)
    requires
        edwards_decompression(s) == Some(p),
        is_identity_point(cofactor_cleared(p)),
    ensures
        cofactor_validation(s) is None,
{
}

/// Law: the cofactor validator accepts exactly the encodings of points that
/// survive cofactor clearing, and hands back the decompressed point itself.
pub proof fn lemma_cofactor_accepts(s: Seq<u8>, p: EdwardsPoint)
    requires
        edwards_decompression(s) == Some(p),
        !is_identity_point(cofactor_cleared(p)),
    ensures
        cofactor_validation(s) == Some(p),
{
}

/// Law: away from the identity encoding, the prime-order validator returns
/// exactly what prime-order decompression returns.
pub proof fn lemma_prime_order_accepts(s: Seq<u8>)
    requires
        s != identity_encoding(),
    ensures
        prime_order_validation(s) == ristretto_decompression(s),
{
}

/// Law: validation is deterministic.  Each validator's outcome — both the
/// accept/reject decision and the accepted point — is a function of the
/// encoded bytes alone, so repeated validation of one encoding always
/// yields one outcome.
pub proof fn lemma_validation_deterministic(a: Seq<u8>, b: Seq<u8>)
    requires
        a == b,
    ensures
        cofactor_validation(a) == cofactor_validation(b),
        prime_order_validation(a) == prime_order_validation(b),
{
}

/// One interface over the two validation strategies, so that calling code
/// can stay agnostic of the encoding format in use.
pub trait PointValidator: Sized {
    /// The in-memory point representation a successful validation yields.
    type Validated;

    /// The validator's outcome as a function of the encoded bytes.
    spec fn outcome(&self, s: Seq<u8>) -> Option<Self::Validated>;

    /// Validate one untrusted 32-byte encoding.
    fn validate(&self, key: &[u8; 32]) -> (r: Option<Self::Validated>)
        ensures
            r == self.outcome(key@),
    ;
}

/// The cofactor-multiplication strategy over compressed Edwards encodings.
pub struct CofactorValidator;

/// The prime-order (Ristretto) encoding strategy, where decompression
/// itself enforces the subgroup check.
pub struct PrimeOrderValidator;

impl PointValidator for CofactorValidator {
    type Validated = EdwardsPoint;

    open spec fn outcome(&self, s: Seq<u8>) -> Option<EdwardsPoint> {
        cofactor_validation(s)
    }

    fn validate(&self, key: &[u8; 32]) -> (r: Option<EdwardsPoint>) {
        mult_by_cofactor_and_validate(key)
    }
}

impl PointValidator for PrimeOrderValidator {
    type Validated = RistrettoPoint;

    open spec fn outcome(&self, s: Seq<u8>) -> Option<RistrettoPoint> {
        prime_order_validation(s)
    }

    fn validate(&self, key: &[u8; 32]) -> (r: Option<RistrettoPoint>) {
        decaf_decompress(key)
    }
}

} // verus!
