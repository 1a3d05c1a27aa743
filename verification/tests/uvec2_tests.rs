use gl_render::types::UVec2;

#[test]
fn uvec2_addition_test() {
    let a = UVec2::new(1, 2);
    let b = UVec2::new(3, 4);

    let expected = UVec2::new(4, 6);

    assert_eq!(a + b, expected);
}

#[test]
fn uvec2_subtraction_test() {
    let a = UVec2::new(5, 6);
    let b = UVec2::new(3, 4);

    let expected = UVec2::new(2, 2);

    assert_eq!(a - b, expected);
}

#[test]
fn uvec2_multiplication_test() {
    let a = UVec2::new(1, 2);
    let b = UVec2::new(3, 4);

    let expected = UVec2::new(3, 8);

    assert_eq!(a * b, expected);
}

#[test]
fn uvec2_division_test() {
    let a = UVec2::new(6, 8);
    let b = UVec2::new(3, 4);

    let expected = UVec2::new(2, 2);

    assert_eq!(a / b, expected);
}

#[test]
fn uvec2_scalar_multiplication_test() {
    let a = UVec2::new(1, 2);
    let b = 3;

    let expected = UVec2::new(3, 6);

    assert_eq!(a * b, expected);
}

#[test]
fn uvec2_scalar_division_test() {
    let a = UVec2::new(6, 9);
    let b = 3;

    let expected = UVec2::new(2, 3);

    assert_eq!(a / b, expected);
}

#[test]
fn uvec2_addition_assignment_test() {
    let mut a = UVec2::new(1, 2);
    let b = UVec2::new(3, 4);

    let expected = UVec2::new(4, 6);

    a += b;

    assert_eq!(a, expected);
}

#[test]
fn uvec2_subtraction_assignment_test() {
    let mut a = UVec2::new(5, 6);
    let b = UVec2::new(3, 4);

    let expected = UVec2::new(2, 2);

    a -= b;

    assert_eq!(a, expected);
}

#[test]
fn uvec2_multiplication_assignment_test() {
    let mut a = UVec2::new(1, 2);
    let b = UVec2::new(3, 4);

    let expected = UVec2::new(3, 8);

    a *= b;

    assert_eq!(a, expected);
}

#[test]
fn uvec2_division_assignment_test() {
    let mut a = UVec2::new(6, 8);
    let b = UVec2::new(3, 4);

    let expected = UVec2::new(2, 2);

    a /= b;

    assert_eq!(a, expected);
}

#[test]
fn uvec2_scalar_multiplication_assignment_test() {
    let mut a = UVec2::new(1, 2);
    let b = 3;

    let expected = UVec2::new(3, 6);

    a *= b;

    assert_eq!(a, expected);
}

#[test]
fn uvec2_scalar_division_assignment_test() {
    let mut a = UVec2::new(6, 9);
    let b = 3;

    let expected = UVec2::new(2, 3);

    a /= b;

    assert_eq!(a, expected);
}

#[test]
fn uvec2_as_array_test() {
    let a = UVec2::new(1, 2);

    let expected = [1, 2];

    assert_eq!(a.as_array(), expected);
}

#[test]
fn uvec2_components_are_read_and_written_by_index() {
    let mut a = UVec2::new(1, 2);
    assert_eq!((a[0], a[1]), (1, 2));
    a[0] = 7;
    a[1] += 5;
    assert_eq!(a, UVec2::new(7, 7));
    assert_eq!(a.to_text(), "(7, 7)");
}

#[test]
fn uvec2_subtraction_stops_at_zero() {
    let a = UVec2::new(1, 9);
    let b = UVec2::new(3, 4);
    assert_eq!(a - b, UVec2::new(0, 5));
    let mut c = a;
    c -= b;
    assert_eq!(c, UVec2::new(0, 5));
}
