use pinceau_rs::math::vec3::Vec3;

#[test]
fn creation() {
    let v = Vec3::new(1, 2, 3);
    assert_eq!(v.x, 1);
    assert_eq!(v.y, 2);
    assert_eq!(v.z, 3);
}

#[test]
fn vec3_test_addition() {
    let v1 = Vec3::new(1, 2, 3);
    let v2 = Vec3::new(4, 5, 6);
    let v3 = v1.add(v2);
    assert_eq!(v3, Vec3::new(5, 7, 9));
}

#[test]
fn addition_scalar() {
    let v1 = Vec3::new(1, 2, 3);
    let scalar = 1;
    let v3 = v1.add_scalar(scalar);
    assert_eq!(v3, Vec3::new(2, 3, 4));
}

#[test]
fn vec3_test_subtraction() {
    let v1 = Vec3::new(4, 5, 6);
    let v2 = Vec3::new(1, 2, 3);

    let v3 = v1.sub(v2);
    assert_eq!(v3, Vec3::new(3, 3, 3));
}

#[test]
fn subtraction_scalar() {
    let v1 = Vec3::new(4, 5, 6);
    let scalar = 1;

    let v3 = v1.sub_scalar(scalar);
    assert_eq!(v3, Vec3::new(3, 4, 5));
}

#[test]
fn scalar_multiplication() {
    let v = Vec3::new(1, 2, 3);
    let v2 = v.mul_scalar(2);
    assert_eq!(v2, Vec3::new(2, 4, 6));
}

#[test]
fn scalar_division() {
    let v = Vec3::new(2, 4, 6);
    let v2 = v.div_scalar(2);
    assert_eq!(v2, Vec3::new(1, 2, 3));
}

#[test]
fn dot_product() {
    let v1 = Vec3::new(1, 2, 3);
    let v2 = Vec3::new(4, 5, 6);
    let result = v1.dot(&v2);

    assert_eq!(result, 32);
}

#[test]
fn cross_product() {
    let v1 = Vec3::new(1, 0, 0);
    let v2 = Vec3::new(0, 1, 0);
    let cross = v1.cross(&v2);
    assert_eq!(cross, Vec3::new(0, 0, 1));
}
