use curve25519_dalek::constants;
use curve25519_dalek::edwards::CompressedEdwardsY;
use curve25519_dalek::edwards::EdwardsPoint;
use curve25519_dalek::ristretto::RistrettoPoint;
use curve25519_dalek::scalar::Scalar;
use curve25519_dalek::traits::Identity;
use rand::rngs::OsRng;

use subgroup_check::decaf_decompress;
use subgroup_check::mult_by_cofactor_and_validate;
use subgroup_check::CofactorValidator;
use subgroup_check::PointValidator;
use subgroup_check::PrimeOrderValidator;

#[test]
fn current_design() {
    let mut csprng: OsRng = OsRng;
    let a: Scalar = Scalar::random(&mut csprng);
    let p: EdwardsPoint = &a * &constants::ED25519_BASEPOINT_POINT;
    let key: CompressedEdwardsY = p.compress();

    let check = mult_by_cofactor_and_validate(key.as_bytes());
    assert!(check.is_some());
}

#[test]
fn with_decaf_instead() {
    let mut csprng: OsRng = OsRng;
    let p: RistrettoPoint = RistrettoPoint::random(&mut csprng);
    let key = p.compress();

    let check = decaf_decompress(key.as_bytes());
    assert!(check.is_some());
}

#[test]
fn cofactor_validator_returns_the_original_point() {
    let mut csprng: OsRng = OsRng;
    let a: Scalar = Scalar::random(&mut csprng);
    let p: EdwardsPoint = &a * &constants::ED25519_BASEPOINT_POINT;
    let key: CompressedEdwardsY = p.compress();

    let check = mult_by_cofactor_and_validate(key.as_bytes());
    assert!(check.is_some());
    assert!(check.unwrap() == p);
}

#[test]
fn prime_order_validator_returns_the_original_point() {
    let mut csprng: OsRng = OsRng;
    let p: RistrettoPoint = RistrettoPoint::random(&mut csprng);
    let key = p.compress();

    let check = decaf_decompress(key.as_bytes());
    assert!(check.is_some());
    assert!(check.unwrap() == p);
}

#[test]
fn prime_order_validator_rejects_the_identity_encoding() {
    let zero_bytes = [0u8; 32];
    assert!(decaf_decompress(&zero_bytes).is_none());

    let canonical = RistrettoPoint::identity().compress();
    assert!(decaf_decompress(canonical.as_bytes()).is_none());
}

#[test]
fn prime_order_validator_rejects_invalid_encodings() {
    // An odd field element is a negative one, and the prime-order format
    // only ever encodes the non-negative square root, so a one byte
    // followed by zeroes is not a valid encoding.
    let mut odd = [0u8; 32];
    odd[0] = 1;
    assert!(decaf_decompress(&odd).is_none());

    // All bits set is far above the field modulus: non-canonical.
    let huge = [0xffu8; 32];
    assert!(decaf_decompress(&huge).is_none());
}

#[test]
fn cofactor_validator_rejects_invalid_encodings() {
    // Roughly half of all y-coordinates have no corresponding x on the
    // curve; walk the single-byte y values, and every encoding the curve
    // library itself cannot decompress must be rejected.
    let mut found_invalid = false;
    for b in 0u8..=255 {
        let mut bytes = [0u8; 32];
        bytes[0] = b;
        if CompressedEdwardsY(bytes).decompress().is_none() {
            found_invalid = true;
            assert!(mult_by_cofactor_and_validate(&bytes).is_none());
        }
    }
    assert!(found_invalid);

    let all_bits_set = [0xffu8; 32];
    if CompressedEdwardsY(all_bits_set).decompress().is_none() {
        assert!(mult_by_cofactor_and_validate(&all_bits_set).is_none());
    }
}

#[test]
fn cofactor_validator_rejects_low_order_points() {
    // Every point of the eight-torsion subgroup, the identity included,
    // collapses to the identity under cofactor multiplication.
    for t in constants::EIGHT_TORSION.iter() {
        let key = t.compress();
        assert!(mult_by_cofactor_and_validate(key.as_bytes()).is_none());
    }
}

#[test]
fn validation_is_repeatable() {
    let mut csprng: OsRng = OsRng;
    let a: Scalar = Scalar::random(&mut csprng);
    let p: EdwardsPoint = &a * &constants::ED25519_BASEPOINT_POINT;
    let edwards_key = p.compress();

    let first = mult_by_cofactor_and_validate(edwards_key.as_bytes());
    let second = mult_by_cofactor_and_validate(edwards_key.as_bytes());
    assert!(first.is_some());
    assert!(first == second);

    let q: RistrettoPoint = RistrettoPoint::random(&mut csprng);
    let ristretto_key = q.compress();

    let first = decaf_decompress(ristretto_key.as_bytes());
    let second = decaf_decompress(ristretto_key.as_bytes());
    assert!(first.is_some());
    assert!(first == second);
}

#[test]
fn validation_leaves_the_input_unchanged() {
    let mut csprng: OsRng = OsRng;
    let a: Scalar = Scalar::random(&mut csprng);
    let p: EdwardsPoint = &a * &constants::ED25519_BASEPOINT_POINT;
    let edwards_bytes = p.compress().to_bytes();
    let edwards_copy = edwards_bytes;

    let _ = mult_by_cofactor_and_validate(&edwards_bytes);
    assert_eq!(edwards_bytes, edwards_copy);

    let q: RistrettoPoint = RistrettoPoint::random(&mut csprng);
    let ristretto_bytes = q.compress().to_bytes();
    let ristretto_copy = ristretto_bytes;

    let _ = decaf_decompress(&ristretto_bytes);
    assert_eq!(ristretto_bytes, ristretto_copy);
}

#[test]
fn validators_share_one_interface() {
    let mut csprng: OsRng = OsRng;
    let a: Scalar = Scalar::random(&mut csprng);
    let p: EdwardsPoint = &a * &constants::ED25519_BASEPOINT_POINT;
    let edwards_key = p.compress();

    let through_trait = CofactorValidator.validate(edwards_key.as_bytes());
    assert!(through_trait == mult_by_cofactor_and_validate(edwards_key.as_bytes()));

    let q: RistrettoPoint = RistrettoPoint::random(&mut csprng);
    let ristretto_key = q.compress();

    let through_trait = PrimeOrderValidator.validate(ristretto_key.as_bytes());
    assert!(through_trait == decaf_decompress(ristretto_key.as_bytes()));
}
