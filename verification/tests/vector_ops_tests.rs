use m2s2_math::{Vector2, Vector2Ops, Vector2i32, Vector3, Vector3Ops, Vector3i32, Vector3i64};

type Vector2f32 = Vector2<f32>;
type Vector3f32 = Vector3<f32>;
type Vector3f64 = Vector3<f64>;

#[test]
fn test_vector3_f32_operations() {
    let v = Vector3f32::new(3.0, 4.0, 0.0);
    let length = v.length_squared().sqrt();
    assert_eq!(length, 5.0);

    let normalized = v.normalize_with_length(length, 0.0);
    assert!((normalized.length_squared().sqrt() - 1.0).abs() < 1e-6);
}

#[test]
fn test_vector3_f64_operations() {
    let v = Vector3f64::new(3.0, 4.0, 0.0);
    let length = v.length_squared().sqrt();
    assert_eq!(length, 5.0);

    let normalized = v.normalize_with_length(length, 0.0);
    assert!((normalized.length_squared().sqrt() - 1.0).abs() < 1e-10);
}

#[test]
fn test_vector2_operations() {
    let v = Vector2f32::new(3.0, 4.0);
    assert_eq!(v.length_squared().sqrt(), 5.0);

    let perp = v.perpendicular();
    assert_eq!(perp.dot(&v), 0.0);
}

#[test]
fn test_cross_product_generic() {
    let v1 = Vector3f64::new(1.0, 0.0, 0.0);
    let v2 = Vector3f64::new(0.0, 1.0, 0.0);
    let cross = v1.cross(&v2);
    assert_eq!(cross.as_slice(), [0.0, 0.0, 1.0]);
}

#[test]
fn cross_product_of_integers() {
    let a = Vector3i32::new(2, 3, 4);
    let b = Vector3i32::new(5, 6, 7);
    assert_eq!(a.cross(&b).as_slice(), [-3, 6, -3]);
    assert_eq!(b.cross(&a).as_slice(), [3, -6, 3]);
}

#[test]
fn cross_product_is_anticommutative() {
    let a = Vector3i64::new(12, -7, 5);
    let b = Vector3i64::new(-3, 9, 11);
    assert_eq!(a.cross(&b), -(b.cross(&a)));
    assert_eq!(a.cross(&b).as_slice(), [-122, -147, 87]);
    assert_eq!(a.cross(&a).as_slice(), [0, 0, 0]);
}

#[test]
fn dot_products() {
    let a = Vector3i32::new(1, 2, 3);
    let b = Vector3i32::new(4, -5, 6);
    assert_eq!(a.dot(&b), 12);
    assert_eq!(b.dot(&a), 12);
    assert_eq!(a.length_squared(), 14);
    let p = Vector2i32::new(3, 4);
    let q = Vector2i32::new(-2, 5);
    assert_eq!(p.dot(&q), 14);
    assert_eq!(p.length_squared(), 25);
    let f = Vector2::<f32>::new(3.0, 4.0);
    assert_eq!(f.length_squared(), 25.0);
}

#[test]
fn perpendicular_turns_by_a_quarter() {
    let v = Vector2::<f32>::new(3.0, 4.0);
    let perp = v.perpendicular();
    assert_eq!(perp.as_slice(), [-4.0, 3.0]);
    assert_eq!(perp.dot(&v), 0.0);
    let w = Vector2i32::new(3, 4);
    assert_eq!(w.perpendicular().as_slice(), [-4, 3]);
    assert_eq!(w.perpendicular().dot(&w), 0);
}

#[test]
fn named_components() {
    let v = Vector3i32::new(7, 8, 9);
    assert_eq!(Vector3Ops::x(&v), 7);
    assert_eq!(Vector3Ops::y(&v), 8);
    assert_eq!(v.z(), 9);
    let w = Vector2i32::new(-1, -2);
    assert_eq!(Vector2Ops::x(&w), -1);
    assert_eq!(Vector2Ops::y(&w), -2);
}
