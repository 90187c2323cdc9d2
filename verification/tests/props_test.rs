use pinceau_rs::math::mat4::Mat4;
use pinceau_rs::math::vec3::Vec3;

#[test]
fn dot_commutes() {
    let a = Vec3::new(3, -5, 7);
    let b = Vec3::new(-2, 11, 4);
    assert_eq!(a.dot(&b), b.dot(&a));
}

#[test]
fn dot_commutes_unsigned() {
    let a = Vec3::new(3u32, 5, 7);
    let b = Vec3::new(2u32, 11, 4);
    assert_eq!(a.dot(&b), b.dot(&a));
}

#[test]
fn cross_anticommutes() {
    let a = Vec3::new(3, -5, 7);
    let b = Vec3::new(-2, 11, 4);
    let negated = Vec3::new(0, 0, 0).sub(b.cross(&a));
    assert_eq!(a.cross(&b), negated);
}

#[test]
fn cross_of_parallel_is_zero() {
    let a = Vec3::new(2, -4, 6);
    let b = Vec3::new(1, -2, 3);
    assert_eq!(a.cross(&b), Vec3::new(0, 0, 0));
}

#[test]
fn add_zero_matrix_is_identity_of_addition() {
    let a = Mat4::new(
        1, -2, 3, -4,
        5, 6, -7, 8,
        9, 10, 11, -12,
        13, -14, 15, 16,
    );
    assert_eq!(a.add(Mat4::zero()), a);
}

#[test]
fn mul_identity_matrix_changes_nothing() {
    let a = Mat4::new(
        1, -2, 3, -4,
        5, 6, -7, 8,
        9, 10, 11, -12,
        13, -14, 15, 16,
    );
    assert_eq!(a.mul(Mat4::identity()), a);
}

#[test]
fn transpose_is_involution() {
    let a = Mat4::new(
        1, -2, 3, -4,
        5, 6, -7, 8,
        9, 10, 11, -12,
        13, -14, 15, 16,
    );
    assert_eq!(a.transpose().transpose(), a);
}

#[test]
fn identity_determinant_unsigned() {
    assert_eq!(Mat4::<u32>::identity().determinant(), 1);
}

#[test]
fn extract_basis_columns() {
    let m = Mat4::new(
        1, 2, 3, 4,
        5, 6, 7, 8,
        9, 10, 11, 12,
        13, 14, 15, 16,
    );
    let (b0, b1, b2) = m.extract_basis();
    assert_eq!(b0, Vec3::new(1, 5, 9));
    assert_eq!(b1, Vec3::new(2, 6, 10));
    assert_eq!(b2, Vec3::new(3, 7, 11));
}

#[test]
fn translation_inverse() {
    let m = Mat4::<i32>::make_translation(1, 2, 3);
    let inv = m.invert();
    assert!(inv.is_some());
    assert_eq!(inv.unwrap(), Mat4::make_translation(-1, -2, -3));
}

#[test]
fn singular_but_nonzero_matrix() {
    let m = Mat4::new(
        1, 1, 1, 1,
        1, 1, 1, 1,
        1, 1, 1, 1,
        1, 1, 1, 1,
    );
    assert_eq!(m.determinant(), 0);
    assert!(m.invert().is_none());
}

#[test]
fn addition_wraps_at_the_representation_boundary() {
    let v = Vec3::new(i32::MAX, 0, 0);
    assert_eq!(v.add_scalar(1), Vec3::new(i32::MIN, 1, 1));
}

#[test]
fn division_truncates_toward_zero() {
    let v = Vec3::new(-7, 7, -8);
    assert_eq!(v.div_scalar(2), Vec3::new(-3, 3, -4));
}

#[test]
fn division_truncates_unsigned() {
    let v = Vec3::new(7u32, 8, 9);
    assert_eq!(v.div_scalar(2), Vec3::new(3, 4, 4));
}

#[test]
fn scalar_matrix_arithmetic() {
    let a = Mat4::<i32>::identity();
    let b = a.add_scalar(5);
    assert_eq!(b.data[0], 6);
    assert_eq!(b.data[1], 5);
    let c = b.sub_scalar(5);
    assert_eq!(c, a);
}
