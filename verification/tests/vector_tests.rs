use m2s2_math::{
    DimensionMismatch, Vector, Vector2, Vector2i32, Vector2i64, Vector3, Vector3i32, Vector4,
    Vector4i32,
};

type Vector3f32 = Vector3<f32>;
type Vector4f32 = Vector4<f32>;

#[test]
fn test_vector_new_i32() {
    let v = Vector3i32::from_slice(&[1, 2, 3]).unwrap();
    assert_eq!(v.as_slice(), [1, 2, 3]);
    assert_eq!(v.dimension(), 3);

    let v2 = Vector2i32::new(10, 20);
    assert_eq!(v2.as_slice(), [10, 20]);
    assert_eq!(v2.dimension(), 2);

    let v3 = Vector3f32::new(1.1, 2.2, 3.3);
    assert_eq!(v3.as_slice(), [1.1, 2.2, 3.3]);
    assert_eq!(v3.dimension(), 3);
}

#[test]
fn test_vector_from_slice() {
    let v_i32 = Vector3i32::from_slice(&[1, 2, 3]).unwrap();
    assert_eq!(v_i32.as_slice(), [1, 2, 3]);

    let v_f32 = Vector4f32::from_slice(&[1.0, -2.5, 0.0, 100.0]).unwrap();
    assert_eq!(v_f32.as_slice(), [1.0, -2.5, 0.0, 100.0]);
}

#[test]
#[should_panic(expected = "Incorrect number of elements")]
fn test_vector_from_slice_panic() {
    match Vector3i32::from_slice(&[1, 2]) {
        Ok(_) => {}
        Err(mismatch) => panic!("{}", mismatch.message()),
    }
}

#[test]
fn test_vector_get_set_index() {
    let mut v = Vector4i32::from_slice(&[1, 2, 3, 4]).unwrap();
    assert_eq!(v.get(2), Some(3));
    assert_eq!(v[2], 3);
    assert_eq!(v.get(5), None);

    v.set(1, 10);
    assert_eq!(v.as_slice(), [1, 10, 3, 4]);
    v[0] = 100;
    assert_eq!(v.as_slice(), [100, 10, 3, 4]);
}

#[test]
fn test_vector_get_panic() {
    let v = Vector3i32::from_slice(&[1, 2, 3]).unwrap();
    let _val = v.get(5);
    assert_eq!(_val, None)
}

#[test]
fn test_vector_add() {
    let v1_i = Vector2i32::new(1, 2);
    let v2_i = Vector2i32::new(3, 4);
    let v3_i = v1_i + v2_i;
    assert_eq!(v3_i.as_slice(), [4, 6]);

    let v1_f = Vector3f32::from_slice(&[1.0, -2.0, 3.5]).unwrap();
    let v2_f = Vector3f32::from_slice(&[0.5, 1.0, -1.5]).unwrap();
    let v3_f = v1_f + v2_f;
    assert_eq!(v3_f.as_slice(), [1.5, -1.0, 2.0]);
}

#[test]
fn test_vector_sub() {
    let v1_i = Vector2i32::new(5, 8);
    let v2_i = Vector2i32::new(1, 3);
    let v3_i = v1_i - v2_i;
    assert_eq!(v3_i.as_slice(), [4, 5]);

    let v1_f = Vector3f32::from_slice(&[1.0, -2.0, 3.5]).unwrap();
    let v2_f = Vector3f32::from_slice(&[0.5, 1.0, -1.5]).unwrap();
    let v3_f = v1_f - v2_f;
    assert_eq!(v3_f.as_slice(), [0.5, -3.0, 5.0]);
}

#[test]
fn test_vector_mul_scalar() {
    let v_i = Vector2i32::new(3, 4);
    let result_i = v_i * 2;
    assert_eq!(result_i.as_slice(), [6, 8]);

    let v_f = Vector3f32::from_slice(&[1.0, -2.0, 3.0]).unwrap();
    let result_f = v_f * 0.5;
    assert_eq!(result_f.as_slice(), [0.5, -1.0, 1.5]);
}

#[test]
fn test_vector_neg() {
    let v_i = Vector2i32::new(3, -4);
    let result_i = -v_i;
    assert_eq!(result_i.as_slice(), [-3, 4]);

    let v_f = Vector3f32::from_slice(&[1.0, -2.0, 0.0]).unwrap();
    let result_f = -v_f;
    assert_eq!(result_f.as_slice(), [-1.0, 2.0, -0.0]);
}

#[test]
fn test_vector_add_assign() {
    let mut v1 = Vector2i32::new(1, 2);
    let v2 = Vector2i32::new(3, 4);
    v1 += &v2;
    assert_eq!(v1.as_slice(), [4, 6]);
}

#[test]
fn test_vector_sub_assign() {
    let mut v1 = Vector2i32::new(5, 5);
    let v2 = Vector2i32::new(1, 2);
    v1 -= &v2;
    assert_eq!(v1.as_slice(), [4, 3]);
}

#[test]
fn test_vector2i_rotate_90() {
    let pivot = Vector2i32::new(10, 10);

    let right_of_pivot = Vector2i32::new(11, 10);
    let rotated_cw = right_of_pivot.rotate_90_cw(pivot);
    assert_eq!(rotated_cw, Vector2i32::new(10, 9));

    let rotated_ccw = right_of_pivot.rotate_90_ccw(pivot);
    assert_eq!(rotated_ccw, Vector2i32::new(10, 11));

    let beside_pivot = Vector2i32::new(10, 9);
    let rotated_cw2 = beside_pivot.rotate_90_cw(pivot);
    assert_eq!(rotated_cw2, Vector2i32::new(9, 10));

    let rotated_ccw2 = beside_pivot.rotate_90_ccw(pivot);
    assert_eq!(rotated_ccw2, Vector2i32::new(11, 10));

    let origin = Vector2i32::new(0, 0);
    let p_origin = Vector2i32::new(1, 0);
    assert_eq!(p_origin.rotate_90_cw(origin), Vector2i32::new(0, -1));
    assert_eq!(
        Vector2i32::new(0, 1).rotate_90_cw(origin),
        Vector2i32::new(1, 0)
    );
    assert_eq!(
        Vector2i32::new(-1, 0).rotate_90_cw(origin),
        Vector2i32::new(0, 1)
    );
    assert_eq!(
        Vector2i32::new(0, -1).rotate_90_cw(origin),
        Vector2i32::new(-1, 0)
    );
    assert_eq!(p_origin.rotate_90_ccw(origin), Vector2i32::new(0, 1));
}

#[test]
fn rotate_short_names_agree() {
    let pivot = Vector2i32::new(10, 10);
    let p = Vector2i32::new(11, 10);
    assert_eq!(p.rotat_90_cw(pivot), Vector2i32::new(10, 9));
    assert_eq!(p.rotat_90_ccw(pivot), Vector2i32::new(10, 11));
    assert_eq!(p.rotat_90_cw(pivot), p.rotate_90_cw(pivot));
    assert_eq!(p.rotat_90_ccw(pivot), p.rotate_90_ccw(pivot));
}

#[test]
fn rotate_float_about_pivot() {
    let pivot = Vector2::<f64>::new(1.5, -2.0);
    let p = Vector2::<f64>::new(3.5, 1.0);
    assert_eq!(p.rotate_90_cw(pivot).as_slice(), [4.5, -4.0]);
    assert_eq!(p.rotate_90_ccw(pivot).as_slice(), [-1.5, 0.0]);
}

#[test]
fn get_agrees_with_as_slice_in_every_dimension() {
    let v2 = Vector2i32::new(7, 8);
    let v3 = Vector3i32::new(7, 8, 9);
    let v4 = Vector4i32::new(7, 8, 9, 10);
    for i in 0..8 {
        assert_eq!(v2.get(i), v2.as_slice().get(i).copied());
        assert_eq!(v3.get(i), v3.as_slice().get(i).copied());
        assert_eq!(v4.get(i), v4.as_slice().get(i).copied());
    }
    assert_eq!(v2.get(1), Some(8));
    assert_eq!(v2.get(2), None);
    assert_eq!(v3.get(2), Some(9));
    assert_eq!(v3.get(3), None);
    assert_eq!(v4.get(3), Some(10));
    assert_eq!(v4.get(4), None);
    assert_eq!(v4.get(usize::MAX), None);
}

#[test]
fn from_slice_rejects_every_other_length() {
    assert_eq!(
        Vector2i32::from_slice(&[1]),
        Err(DimensionMismatch { expected: 2, found: 1 })
    );
    assert_eq!(
        Vector2i32::from_slice(&[1, 2, 3]),
        Err(DimensionMismatch { expected: 2, found: 3 })
    );
    assert_eq!(
        Vector3i32::from_slice(&[]),
        Err(DimensionMismatch { expected: 3, found: 0 })
    );
    assert_eq!(
        Vector3i32::from_slice(&[1, 2, 3, 4]),
        Err(DimensionMismatch { expected: 3, found: 4 })
    );
    assert_eq!(
        Vector4i32::from_slice(&[1, 2, 3]),
        Err(DimensionMismatch { expected: 4, found: 3 })
    );
    assert_eq!(
        Vector4i32::from_slice(&[1, 2, 3, 4, 5]),
        Err(DimensionMismatch { expected: 4, found: 5 })
    );
    assert_eq!(Vector4i32::from_slice(&[1, 2, 3, 4]), Ok(Vector4i32::new(1, 2, 3, 4)));
    assert_eq!(Vector::<u8, 1>::from_slice(&[9]).unwrap().as_slice(), [9]);
}

#[test]
fn dimension_mismatch_message() {
    let mismatch = Vector3i32::from_slice(&[1, 2]).unwrap_err();
    assert_eq!(mismatch.expected, 3);
    assert_eq!(mismatch.found, 2);
    assert_eq!(mismatch.message(), "Incorrect number of elements for dimension");
}

#[test]
fn get_mut_writes_one_component() {
    let mut v = Vector3i32::new(1, 2, 3);
    match v.get_mut(1) {
        Some(slot) => *slot = 20,
        None => panic!("component 1 exists"),
    }
    assert_eq!(v.as_slice(), [1, 20, 3]);
    assert!(v.get_mut(3).is_none());
    assert_eq!(v.as_slice(), [1, 20, 3]);
}

#[test]
fn index_reads_and_writes() {
    let mut v = Vector3i32::new(4, 5, 6);
    assert_eq!(v[0], 4);
    assert_eq!(v[2], 6);
    v[2] = -6;
    assert_eq!(v.as_slice(), [4, 5, -6]);
}

#[test]
fn operands_are_left_unchanged() {
    let a = Vector3i32::new(1, 2, 3);
    let b = Vector3i32::new(10, 20, 30);
    let _ = a + b;
    let _ = a - b;
    let _ = a * 3;
    let _ = -a;
    assert_eq!(a.as_slice(), [1, 2, 3]);
    assert_eq!(b.as_slice(), [10, 20, 30]);
    let mut c = a;
    c += &b;
    assert_eq!(b.as_slice(), [10, 20, 30]);
    assert_eq!(c.as_slice(), [11, 22, 33]);
    c -= &a;
    assert_eq!(c.as_slice(), [10, 20, 30]);
}

#[test]
fn arithmetic_in_dimension_four_and_i64() {
    let a = Vector4::<i64>::new(1, -2, 3, -4);
    let b = Vector4::<i64>::new(5_000_000_000, 6, 7, 8);
    assert_eq!((a + b).as_slice(), [5_000_000_001, 4, 10, 4]);
    assert_eq!((a - b).as_slice(), [-4_999_999_999, -8, -4, -12]);
    assert_eq!((b * 3).as_slice(), [15_000_000_000, 18, 21, 24]);
    assert_eq!((-a).as_slice(), [-1, 2, -3, 4]);
    let p = Vector2i64::new(3_000_000_000, 1);
    let pivot = Vector2i64::new(1, 1);
    assert_eq!(p.rotate_90_cw(pivot), Vector2i64::new(1, -2_999_999_998));
}

#[test]
fn addition_commutes_and_associates() {
    let a = Vector3i32::new(1, -2, 3);
    let b = Vector3i32::new(40, 50, -60);
    let c = Vector3i32::new(-700, 800, 900);
    assert_eq!(a + b, b + a);
    assert_eq!((a + b) + c, a + (b + c));
    assert_eq!((a + b) + c, Vector3i32::new(-659, 848, 843));
}

#[test]
fn quarter_turns_cancel() {
    let pivot = Vector2i32::new(-3, 7);
    let p = Vector2i32::new(12, -5);
    assert_eq!(p.rotate_90_cw(pivot), Vector2i32::new(-15, -8));
    assert_eq!(p.rotate_90_cw(pivot).rotate_90_ccw(pivot), p);
    assert_eq!(p.rotate_90_ccw(pivot), Vector2i32::new(9, 22));
    assert_eq!(p.rotate_90_ccw(pivot).rotate_90_cw(pivot), p);
    let q = Vector2::<f32>::new(0.5, 0.25);
    let o = Vector2::<f32>::new(0.0, 0.0);
    assert_eq!(q.rotate_90_cw(o).rotate_90_ccw(o), q);
}

#[test]
fn normalize_with_length_divides_unless_the_length_is_zero() {
    let v = Vector3f32::new(3.0, 4.0, 0.0);
    assert_eq!(v.normalize_with_length(5.0, 0.0).as_slice(), [0.6, 0.8, 0.0]);
    let zero = Vector3f32::new(0.0, 0.0, 0.0);
    assert_eq!(zero.normalize_with_length(0.0, 0.0), zero);
    assert_eq!(zero.normalize_with_length(0.0, 0.0).as_slice(), [0.0, 0.0, 0.0]);
    let w = Vector2i32::new(6, -9);
    assert_eq!(w.normalize_with_length(3, 0).as_slice(), [2, -3]);
    assert_eq!(w.normalize_with_length(0, 0), w);
    assert_eq!(Vector2i32::new(7, -7).normalize_with_length(2, 0).as_slice(), [3, -3]);
}
