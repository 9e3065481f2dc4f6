//! Subgroup validation for compressed curve-point encodings.
//!
//! An untrusted 32-byte encoding of a curve point may decode to a point that
//! is not on the curve, or to one outside the prime-order subgroup (a
//! low-order point), either of which makes a dangerous public key.  This
//! crate offers two independent, stateless checks, each a pure function from
//! an encoding to an optional validated point:
//!
//! - [`mult_by_cofactor_and_validate`] decompresses an Edwards encoding,
//!   multiplies the point by the curve's cofactor, and rejects it when the
//!   product is the identity;
//! - [`decaf_decompress`] rejects the encoded identity outright (in constant
//!   time) and then decompresses a prime-order (Ristretto) encoding, whose
//!   decoding enforces subgroup membership by construction.

pub mod curve;
pub mod validate;

pub use validate::decaf_decompress;
pub use validate::mult_by_cofactor_and_validate;
pub use validate::CofactorValidator;
pub use validate::PointValidator;
pub use validate::PrimeOrderValidator;
