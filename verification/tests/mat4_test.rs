use pinceau_rs::math::mat4::Mat4;

#[test]
fn new_matrix() {
    let m = Mat4::new(
        1, 2, 3, 4,
        5, 6, 7, 8,
        9, 10, 11, 12,
        13, 14, 15, 16,
    );
    assert_eq!(m.data[0], 1);
    assert_eq!(m.data[15], 16);
}

#[test]
fn zero_matrix() {
    let zero = Mat4::<i32>::zero();
    assert!(zero.data.iter().all(|&x| x == 0));
}

#[test]
fn identity_matrix() {
    let identity = Mat4::<i32>::identity();
    assert_eq!(identity.data[0], 1);
    assert_eq!(identity.data[5], 1);

    assert_eq!(identity.data[10], 1);
    assert_eq!(identity.data[15], 1);
}

#[test]
fn mat4_test_addition() {
    let m1 = Mat4::<i32>::identity();
    let m2 = Mat4::<i32>::identity();
    let sum = m1.add(m2);
    assert_eq!(sum.data[0], 2);
    assert_eq!(sum.data[5], 2);
}

#[test]
fn mat4_test_subtraction() {
    let m1 = Mat4::<i32>::identity();

    let m2 = Mat4::<i32>::identity();
    let diff = m1.sub(m2);
    assert!(diff.data.iter().all(|&x| x == 0));
}

#[test]
fn multiplication_scalar() {
    let m = Mat4::<i32>::identity().mul_scalar(2);
    assert_eq!(m.data[0], 2);
    assert_eq!(m.data[5], 2);
}

#[test]
fn multiplication_matrix() {
    let m1 = Mat4::<i32>::identity();
    let m2 = Mat4::<i32>::identity();
    let prod = m1.mul(m2);
    assert_eq!(prod, Mat4::<i32>::identity());
}

#[test]
fn transpose() {
    let m = Mat4::new(
        1, 2, 3, 4,
        5, 6, 7, 8,
        9, 10, 11, 12,
        13, 14, 15, 16,
    );
    let t = m.transpose();
    assert_eq!(t.data[1], 5);
    assert_eq!(t.data[4], 2);
}

#[test]
fn determinant() {
    let identity = Mat4::<i32>::identity();
    assert_eq!(identity.determinant(), 1);
}

#[test]
fn invertible_matrix() {
    let identity = Mat4::<i32>::identity();
    let inv = identity.invert();
    assert!(inv.is_some());
    assert_eq!(inv.unwrap(), identity);
}

#[test]
fn non_invertible_matrix() {
    let zero = Mat4::<i32>::zero();
    let inv = zero.invert();
    assert!(inv.is_none());
}

#[test]
fn scaling() {
    let scaled = Mat4::<i32>::identity().scale(2, 3, 4);
    assert_eq!(scaled.data[0], 2);
    assert_eq!(scaled.data[5], 3);
    assert_eq!(scaled.data[10], 4);
}

#[test]
fn translation() {
    let translated = Mat4::<i32>::identity().translate(1, 2, 3);

    assert_eq!(translated.data[3], 1);
    assert_eq!(translated.data[7], 2);
    assert_eq!(translated.data[11], 3);
}
