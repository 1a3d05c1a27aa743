use gl_render::types::IVec2;

#[test]
fn ivec2_addition_test() {
    let a = IVec2::new(1, 2);
    let b = IVec2::new(3, 4);

    let expected = IVec2::new(4, 6);

    assert_eq!(a + b, expected);
}

#[test]
fn ivec2_subtraction_test() {
    let a = IVec2::new(1, 2);
    let b = IVec2::new(3, 4);

    let expected = IVec2::new(-2, -2);

    assert_eq!(a - b, expected);
}

#[test]
fn ivec2_multiplication_test() {
    let a = IVec2::new(1, 2);
    let b = IVec2::new(3, 4);

    let expected = IVec2::new(3, 8);

    assert_eq!(a * b, expected);
}

#[test]
fn ivec2_division_test() {
    let a = IVec2::new(1, 2);
    let b = IVec2::new(3, 4);

    let expected = IVec2::new(1 / 3, 2 / 4);

    assert_eq!(a / b, expected);
}

#[test]
fn ivec2_scalar_multiplication_test() {
    let a = IVec2::new(1, 2);
    let b = 3;

    let expected = IVec2::new(3, 6);

    assert_eq!(a * b, expected);
}

#[test]
fn ivec2_scalar_division_test() {
    let a = IVec2::new(1, 2);
    let b = 3;

    let expected = IVec2::new(1 / 3, 2 / 3);

    assert_eq!(a / b, expected);
}

#[test]
fn ivec2_negation_test() {
    let a = IVec2::new(1, 2);

    let expected = IVec2::new(-1, -2);

    assert_eq!(-a, expected);
}

#[test]
fn ivec2_addition_assignment_test() {
    let mut a = IVec2::new(1, 2);
    let b = IVec2::new(3, 4);

    let expected = IVec2::new(4, 6);

    a += b;

    assert_eq!(a, expected);
}

#[test]
fn ivec2_subtraction_assignment_test() {
    let mut a = IVec2::new(1, 2);
    let b = IVec2::new(3, 4);

    let expected = IVec2::new(-2, -2);

    a -= b;

    assert_eq!(a, expected);
}

#[test]
fn ivec2_multiplication_assignment_test() {
    let mut a = IVec2::new(1, 2);
    let b = IVec2::new(3, 4);

    let expected = IVec2::new(3, 8);

    a *= b;

    assert_eq!(a, expected);
}

#[test]
fn ivec2_division_assignment_test() {
    let mut a = IVec2::new(1, 2);
    let b = IVec2::new(3, 4);

    let expected = IVec2::new(1 / 3, 2 / 4);

    a /= b;

    assert_eq!(a, expected);
}

#[test]
fn ivec2_scalar_multiplication_assignment_test() {
    let mut a = IVec2::new(1, 2);
    let b = 3;

    let expected = IVec2::new(3, 6);

    a *= b;

    assert_eq!(a, expected);
}

#[test]
fn ivec2_scalar_division_assignment_test() {
    let mut a = IVec2::new(1, 2);
    let b = 3;

    let expected = IVec2::new(1 / 3, 2 / 3);

    a /= b;

    assert_eq!(a, expected);
}

#[test]
fn ivec2_as_array_test() {
    let a = IVec2::new(1, 2);

    let expected = [1, 2];

    assert_eq!(a.as_array(), expected);
}

#[test]
fn ivec2_components_are_read_and_written_by_index() {
    let mut a = IVec2::new(1, 2);
    assert_eq!((a[0], a[1]), (1, 2));
    a[0] = 7;
    a[1] -= 5;
    assert_eq!(a, IVec2::new(7, -3));
    assert_eq!(a.to_text(), "(7, -3)");
}
