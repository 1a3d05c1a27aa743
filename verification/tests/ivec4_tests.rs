use gl_render::types::IVec4;

#[test]
fn ivec4_addition_test() {
    let a = IVec4::new(1, 2, 3, 4);
    let b = IVec4::new(5, 6, 7, 8);

    let expected = IVec4::new(6, 8, 10, 12);

    assert_eq!(a + b, expected);
}

#[test]
fn ivec4_subtraction_test() {
    let a = IVec4::new(1, 2, 3, 4);
    let b = IVec4::new(5, 6, 7, 8);

    let expected = IVec4::new(-4, -4, -4, -4);

    assert_eq!(a - b, expected);
}

#[test]
fn ivec4_multiplication_test() {
    let a = IVec4::new(1, 2, 3, 4);
    let b = IVec4::new(5, 6, 7, 8);

    let expected = IVec4::new(5, 12, 21, 32);

    assert_eq!(a * b, expected);
}

#[test]
fn ivec4_division_test() {
    let a = IVec4::new(1, 2, 3, 4);
    let b = IVec4::new(5, 6, 7, 8);

    let expected = IVec4::new(1 / 5, 2 / 6, 3 / 7, 4 / 8);

    assert_eq!(a / b, expected);
}

#[test]
fn ivec4_scalar_multiplication_test() {
    let a = IVec4::new(1, 2, 3, 4);
    let b = 5;

    let expected = IVec4::new(5, 10, 15, 20);

    assert_eq!(a * b, expected);
}

#[test]
fn ivec4_scalar_division_test() {
    let a = IVec4::new(1, 2, 3, 4);
    let b = 5;

    let expected = IVec4::new(1 / 5, 2 / 5, 3 / 5, 4 / 5);

    assert_eq!(a / b, expected);
}

#[test]
fn ivec4_negation_test() {
    let a = IVec4::new(1, 2, 3, 4);

    let expected = IVec4::new(-1, -2, -3, -4);

    assert_eq!(-a, expected);
}

#[test]
fn ivec4_addition_assignment_test() {
    let mut a = IVec4::new(1, 2, 3, 4);
    let b = IVec4::new(5, 6, 7, 8);

    let expected = IVec4::new(6, 8, 10, 12);

    a += b;

    assert_eq!(a, expected);
}

#[test]
fn ivec4_subtraction_assignment_test() {
    let mut a = IVec4::new(1, 2, 3, 4);
    let b = IVec4::new(5, 6, 7, 8);

    let expected = IVec4::new(-4, -4, -4, -4);

    a -= b;

    assert_eq!(a, expected);
}

#[test]
fn ivec4_multiplication_assignment_test() {
    let mut a = IVec4::new(1, 2, 3, 4);
    let b = IVec4::new(5, 6, 7, 8);

    let expected = IVec4::new(5, 12, 21, 32);

    a *= b;

    assert_eq!(a, expected);
}

#[test]
fn ivec4_division_assignment_test() {
    let mut a = IVec4::new(1, 2, 3, 4);
    let b = IVec4::new(5, 6, 7, 8);

    let expected = IVec4::new(1 / 5, 2 / 6, 3 / 7, 4 / 8);

    a /= b;

    assert_eq!(a, expected);
}

#[test]
fn ivec4_scalar_multiplication_assignment_test() {
    let mut a = IVec4::new(1, 2, 3, 4);
    let b = 5;

    let expected = IVec4::new(5, 10, 15, 20);

    a *= b;

    assert_eq!(a, expected);
}

#[test]
fn ivec4_scalar_division_assignment_test() {
    let mut a = IVec4::new(1, 2, 3, 4);
    let b = 5;

    let expected = IVec4::new(1 / 5, 2 / 5, 3 / 5, 4 / 5);

    a /= b;

    assert_eq!(a, expected);
}

#[test]
fn ivec4_as_array_test() {
    let a = IVec4::new(1, 2, 3, 4);

    let expected = [1, 2, 3, 4];

    assert_eq!(a.as_array(), expected);
}
