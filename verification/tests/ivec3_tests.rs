use gl_render::types::IVec3;

#[test]
fn ivec3_addition_test() {
    let a = IVec3::new(1, 2, 3);
    let b = IVec3::new(4, 5, 6);

    let expected = IVec3::new(5, 7, 9);

    assert_eq!(a + b, expected);
}

#[test]
fn ivec3_subtraction_test() {
    let a = IVec3::new(1, 2, 3);
    let b = IVec3::new(4, 5, 6);

    let expected = IVec3::new(-3, -3, -3);

    assert_eq!(a - b, expected);
}

#[test]
fn ivec3_multiplication_test() {
    let a = IVec3::new(1, 2, 3);
    let b = IVec3::new(4, 5, 6);

    let expected = IVec3::new(4, 10, 18);

    assert_eq!(a * b, expected);
}

#[test]
fn ivec3_division_test() {
    let a = IVec3::new(1, 2, 3);
    let b = IVec3::new(4, 5, 6);

    let expected = IVec3::new(1 / 4, 2 / 5, 3 / 6);

    assert_eq!(a / b, expected);
}

#[test]
fn ivec3_scalar_multiplication_test() {
    let a = IVec3::new(1, 2, 3);
    let b = 4;

    let expected = IVec3::new(4, 8, 12);

    assert_eq!(a * b, expected);
}

#[test]
fn ivec3_scalar_division_test() {
    let a = IVec3::new(1, 2, 3);
    let b = 4;

    let expected = IVec3::new(1 / 4, 2 / 4, 3 / 4);

    assert_eq!(a / b, expected);
}

#[test]
fn ivec3_negation_test() {
    let a = IVec3::new(1, 2, 3);

    let expected = IVec3::new(-1, -2, -3);

    assert_eq!(-a, expected);
}

#[test]
fn ivec3_addition_assignment_test() {
    let mut a = IVec3::new(1, 2, 3);
    let b = IVec3::new(4, 5, 6);

    let expected = IVec3::new(5, 7, 9);

    a += b;

    assert_eq!(a, expected);
}

#[test]
fn ivec3_subtraction_assignment_test() {
    let mut a = IVec3::new(1, 2, 3);
    let b = IVec3::new(4, 5, 6);

    let expected = IVec3::new(-3, -3, -3);

    a -= b;

    assert_eq!(a, expected);
}

#[test]
fn ivec3_multiplication_assignment_test() {
    let mut a = IVec3::new(1, 2, 3);
    let b = IVec3::new(4, 5, 6);

    let expected = IVec3::new(4, 10, 18);

    a *= b;

    assert_eq!(a, expected);
}

#[test]
fn ivec3_division_assignment_test() {
    let mut a = IVec3::new(1, 2, 3);
    let b = IVec3::new(4, 5, 6);

    let expected = IVec3::new(1 / 4, 2 / 5, 3 / 6);

    a /= b;

    assert_eq!(a, expected);
}

#[test]
fn ivec3_scalar_multiplication_assignment_test() {
    let mut a = IVec3::new(1, 2, 3);
    let b = 4;

    let expected = IVec3::new(4, 8, 12);

    a *= b;

    assert_eq!(a, expected);
}

#[test]
fn ivec3_scalar_division_assignment_test() {
    let mut a = IVec3::new(1, 2, 3);
    let b = 4;

    let expected = IVec3::new(1 / 4, 2 / 4, 3 / 4);

    a /= b;

    assert_eq!(a, expected);
}

#[test]
fn ivec3_as_array_test() {
    let a = IVec3::new(1, 2, 3);

    let expected = [1, 2, 3];

    assert_eq!(a.as_array(), expected);
}

#[test]
fn ivec3_division_rounds_toward_zero() {
    let a = IVec3::new(7, -7, -8);
    let b = IVec3::new(2, 2, -3);
    assert_eq!(a / b, IVec3::new(3, -3, 2));
    assert_eq!(a / -2, IVec3::new(-3, 3, 4));
}
