use quaternion::DegenerateQuaternion;
use quaternion::Quaternion;
use quaternion::Rat;

#[test]
fn test_new() {
    let expected = Quaternion::with_denominator(1, 2, 3, 4, 1);
    let result = Quaternion::new(1, 2, 3, 4);
    assert_eq!(expected, result);
}

#[test]
fn test_real() {
    let q = Quaternion::from_components(
        &Rat::new(23, 100),
        &Rat::new(0, 1),
        &Rat::new(0, 1),
        &Rat::new(0, 1),
    );
    assert_eq!(q.real_part(), Rat::new(23, 100));
}

#[test]
fn test_imaginary() {
    let q = Quaternion::from_components(
        &Rat::new(23, 100),
        &Rat::new(2, 10),
        &Rat::new(1, 10),
        &Rat::new(5, 10),
    );
    let i = (Rat::new(2, 10), Rat::new(1, 10), Rat::new(5, 10));
    assert_eq!(q.imaginary(), i);
}

#[test]
fn test_add() {
    let q1 = Quaternion::new(1, 2, 3, 4);
    let q2 = Quaternion::with_denominator(1, 1, 1, 1, 2);
    let expected = Quaternion::with_denominator(3, 5, 7, 9, 2);
    let result = q1.add(&q2);
    assert_eq!(expected, result);
}

#[test]
fn test_conjugate() {
    let q = Quaternion::new(1, 2, 3, 4);
    let expected = Quaternion::new(1, -2, -3, -4);
    let result = q.conjugate();
    assert_eq!(expected, result);
}

#[test]
fn test_inverse() {
    let q = Quaternion::new(1, 2, 3, 4);
    let expected = Quaternion::with_denominator(1, -2, -3, -4, 30);
    let result = q.inverse().unwrap();
    assert_eq!(expected, result);
}

#[test]
fn test_add_commutative() {
    let a = Quaternion::new(1, 2, 3, 4);
    let b = Quaternion::with_denominator(5, -6, 7, -8, 3);
    assert_eq!(a.add(&b), b.add(&a));
    let sum = Quaternion::new(1, 2, 3, 4).add(&Quaternion::new(5, 6, 7, 8));
    assert_eq!(sum, Quaternion::new(6, 8, 10, 12));
}

#[test]
fn test_conjugate_involution() {
    let q = Quaternion::with_denominator(1, -2, 3, -4, 7);
    assert_eq!(q.conjugate().conjugate(), q);
}

#[test]
fn test_mul_inverse_identity() {
    let q = Quaternion::new(1, 2, 3, 4);
    let inv = q.inverse().unwrap();
    assert_eq!(q.mul(&inv), Quaternion::new(1, 0, 0, 0));
}

#[test]
fn test_mul_non_commutative() {
    let i = Quaternion::new(0, 1, 0, 0);
    let j = Quaternion::new(0, 0, 1, 0);
    let k = Quaternion::new(0, 0, 0, 1);
    let minus_k = Quaternion::new(0, 0, 0, -1);
    assert_eq!(i.mul(&j), k);
    assert_eq!(j.mul(&i), minus_k);
    assert_ne!(i.mul(&j), j.mul(&i));
}

#[test]
fn test_square_norm() {
    let q = Quaternion::new(1, 2, 3, 4);
    assert_eq!(q.square_norm(), Rat::new(30, 1));
    let zero = Quaternion::new(0, 0, 0, 0);
    assert_eq!(zero.square_norm(), Rat::new(0, 1));
}

#[test]
fn test_mul_scalar() {
    let q = Quaternion::new(1, 2, 3, 4);
    let result = q.mul_scalar(&Rat::new(3, 2));
    let expected = Quaternion::with_denominator(3, 6, 9, 12, 2);
    assert_eq!(expected, result);
}

#[test]
fn test_div() {
    let q = Quaternion::new(1, 2, 4, 8);
    let result = Quaternion::div(&Rat::new(2, 1), &q).unwrap();
    let expected = Quaternion::with_denominator(16, -8, -4, -2, 8);
    assert_eq!(expected, result);
}

#[test]
fn test_div_degenerate() {
    let q = Quaternion::new(1, 0, 3, 4);
    let result = Quaternion::div(&Rat::new(2, 1), &q);
    assert_eq!(result, Err(DegenerateQuaternion));
}

#[test]
fn test_inverse_degenerate() {
    let zero = Quaternion::new(0, 0, 0, 0);
    assert_eq!(zero.inverse(), Err(DegenerateQuaternion));
}

#[test]
fn test_round() {
    let q = Quaternion::with_denominator(1234, -567, 100, 5, 1000);
    let expected = Quaternion::with_denominator(123, -57, 10, 1, 100);
    assert_eq!(q.round(2), expected);
}

#[test]
fn test_round_zero_decimals() {
    let q = Quaternion::with_denominator(5, -5, 1, -1, 2);
    let expected = Quaternion::new(3, -3, 1, -1);
    assert_eq!(q.round(0), expected);
}

#[test]
fn test_display() {
    let q = Quaternion::new(1, 2, 3, 4);
    assert_eq!(q.to_display_string(), "1+2i+3j+4k");
    let p = Quaternion::new(1, -2, 3, -4);
    assert_eq!(p.to_display_string(), "1-2i+3j-4k");
}

#[test]
fn test_rat_normalization() {
    assert_eq!(Rat::new(1, -2), Rat::new(-1, 2));
    assert_eq!(Rat::new(1, 2), Rat::new(2, 4));
    assert_ne!(Rat::new(1, 2), Rat::new(1, 3));
}

#[test]
fn test_rat_div() {
    let a = Rat::new(3, 4);
    let b = Rat::new(-2, 5);
    let r = a.div(&b);
    assert_eq!(r, Rat::new(-15, 8));
    assert!(r.denominator() > 0);
}
