use m2s2_math::{
    DimensionMismatch, Matrix, Matrix2x2, Matrix2x2i32, Matrix2x2i64, Matrix3x3i32, Matrix3x3i64,
    Matrix4x4, Matrix4x4i32, Matrix4x4i64, Vector2i32, Vector3i32, Vector3i64, Vector4,
    Vector4i32,
};

type Matrix2x2f32 = Matrix2x2<f32>;
type Matrix4x4f32 = Matrix4x4<f32>;
type Vector4f32 = Vector4<f32>;

#[test]
fn test_matrix4x4_identity() {
    let identity_mat = Matrix4x4f32::identity_from(0.0, 1.0);
    assert_eq!(
        identity_mat.as_slice(),
        [1.0, 0.0, 0.0, 0.0, 0.0, 1.0, 0.0, 0.0, 0.0, 0.0, 1.0, 0.0, 0.0, 0.0, 0.0, 1.0]
    );
}

#[test]
fn test_matrix2x2_identity() {
    let identity_mat = Matrix2x2i32::identity();
    assert_eq!(identity_mat.as_slice(), [1, 0, 0, 1]);
}

#[test]
fn test_matrix4x4_from_slice() {
    let mat = Matrix4x4f32::from_slice(&[
        1.0, 2.0, 3.0, 4.0, 5.0, 6.0, 7.0, 8.0, 9.0, 10.0, 11.0, 12.0, 13.0, 14.0, 15.0, 16.0,
    ])
    .unwrap();
    assert_eq!(
        mat.as_slice(),
        [
            1.0, 2.0, 3.0, 4.0, 5.0, 6.0, 7.0, 8.0, 9.0, 10.0, 11.0, 12.0, 13.0, 14.0, 15.0, 16.0
        ]
    );
}

#[test]
fn test_matrix2x2_from_2d_array() {
    let mat = Matrix2x2i32::from_2d_array([[1, 2], [3, 4]]);
    assert_eq!(mat.as_slice(), [1, 2, 3, 4]);
}

#[test]
fn test_matrix4x4_get_set_index() {
    let mut mat = Matrix4x4f32::identity_from(0.0, 1.0);
    assert_eq!(mat.get(0, 0), Some(1.0));
    assert_eq!(mat[1][1], 1.0);
    assert_eq!(mat.get(4, 0), None);

    mat.set(0, 0, 10.0);
    assert_eq!(mat[0][0], 10.0);
    mat[1][1] = 20.0;
    assert_eq!(mat[1][1], 20.0);
}

#[test]
fn test_matrix4x4_add() {
    let mat1 = Matrix4x4i32::from_2d_array([
        [1, 2, 3, 4],
        [5, 6, 7, 8],
        [9, 10, 11, 12],
        [13, 14, 15, 16],
    ]);
    let mat2 =
        Matrix4x4i32::from_2d_array([[1, 1, 1, 1], [1, 1, 1, 1], [1, 1, 1, 1], [1, 1, 1, 1]]);
    let result = mat1 + mat2;
    assert_eq!(
        result.as_slice(),
        [2, 3, 4, 5, 6, 7, 8, 9, 10, 11, 12, 13, 14, 15, 16, 17]
    );
}

#[test]
fn test_matrix2x2_add() {
    let mat1 = Matrix2x2f32::from_2d_array([[1.0, 2.0], [3.0, 4.0]]);
    let mat2 = Matrix2x2f32::from_2d_array([[5.0, 6.0], [7.0, 8.0]]);
    let result = mat1 + mat2;
    assert_eq!(result.as_slice(), [6.0, 8.0, 10.0, 12.0]);
}

#[test]
fn test_matrix4x4_mul_scalar() {
    let mat = Matrix4x4f32::from_2d_array([
        [1.0, 2.0, 3.0, 4.0],
        [5.0, 6.0, 7.0, 8.0],
        [9.0, 10.0, 11.0, 12.0],
        [13.0, 14.0, 15.0, 16.0],
    ]);
    let result = mat * 2.0;
    assert_eq!(
        result.as_slice(),
        [
            2.0, 4.0, 6.0, 8.0, 10.0, 12.0, 14.0, 16.0, 18.0, 20.0, 22.0, 24.0, 26.0, 28.0, 30.0,
            32.0
        ]
    );
}

#[test]
fn test_matrix2x2_mul_scalar() {
    let mat = Matrix2x2i32::from_2d_array([[1, 2], [3, 4]]);
    let result = mat * 10;
    assert_eq!(result.as_slice(), [10, 20, 30, 40]);
}

#[test]
fn test_matrix4x4_neg() {
    let mat = Matrix4x4i32::from_2d_array([
        [1, -2, 0, 5],
        [-3, 4, -1, 0],
        [0, 0, 0, 0],
        [10, -10, 10, -10],
    ]);
    let result = -mat;
    assert_eq!(
        result.as_slice(),
        [-1, 2, 0, -5, 3, -4, 1, 0, 0, 0, 0, 0, -10, 10, -10, 10]
    );
}

#[test]
fn test_matrix4x4_mul_vector4() {
    let mat_identity = Matrix4x4f32::identity_from(0.0, 1.0);
    let vec = Vector4f32::new(5.0, 10.0, 2.0, 1.0);
    let result_identity = mat_identity.mul_vec(&vec, 0.0);
    assert_eq!(result_identity.as_slice(), [5.0, 10.0, 2.0, 1.0]);

    let rotation_mat = Matrix4x4f32::from_2d_array([
        [1.0, 0.0, 0.0, 0.0],
        [0.0, 0.0, -1.0, 0.0],
        [0.0, 1.0, 0.0, 0.0],
        [0.0, 0.0, 0.0, 1.0],
    ]);
    let vec2 = Vector4f32::new(0.0, 1.0, 0.0, 1.0);
    let rotated_vec2 = rotation_mat.mul_vec(&vec2, 0.0);
    assert_eq!(rotated_vec2.as_slice(), [0.0, 0.0, 1.0, 1.0]);
}

#[test]
fn test_matrix2x2_mul_vector2() {
    let mat = Matrix2x2i32::from_2d_array([[0, -1], [1, 0]]);
    let vec = Vector2i32::new(10, 0);
    let rotated_vec = mat * vec;
    assert_eq!(rotated_vec.as_slice(), [0, 10]);
}

#[test]
fn test_matrix4x4_mul_matrix4x4() {
    let mat_a = Matrix4x4f32::from_2d_array([
        [1.0, 0.0, 0.0, 1.0],
        [0.0, 1.0, 0.0, 2.0],
        [0.0, 0.0, 1.0, 0.0],
        [0.0, 0.0, 0.0, 1.0],
    ]);
    let mat_b = Matrix4x4f32::from_2d_array([
        [0.0, -1.0, 0.0, 0.0],
        [1.0, 0.0, 0.0, 0.0],
        [0.0, 0.0, 1.0, 0.0],
        [0.0, 0.0, 0.0, 1.0],
    ]);
    let result = mat_a.mul_mat(&mat_b, 0.0);
    assert_eq!(
        result.as_slice(),
        [0.0, -1.0, 0.0, 1.0, 1.0, 0.0, 0.0, 2.0, 0.0, 0.0, 1.0, 0.0, 0.0, 0.0, 0.0, 1.0]
    );
}

#[test]
fn test_matrix2x2_mul_matrix2x2() {
    let mat1 = Matrix2x2i32::from_2d_array([[1, 2], [3, 4]]);
    let mat2 = Matrix2x2i32::from_2d_array([[5, 6], [7, 8]]);
    let result = mat1 * mat2;
    assert_eq!(result.as_slice(), [19, 22, 43, 50]);
}

#[test]
fn identity_of_every_order_and_integer_type() {
    assert_eq!(Matrix2x2i64::identity().as_slice(), [1, 0, 0, 1]);
    assert_eq!(Matrix3x3i32::identity().as_slice(), [1, 0, 0, 0, 1, 0, 0, 0, 1]);
    assert_eq!(Matrix3x3i64::identity().as_slice(), [1, 0, 0, 0, 1, 0, 0, 0, 1]);
    assert_eq!(
        Matrix4x4i32::identity().as_slice(),
        [1, 0, 0, 0, 0, 1, 0, 0, 0, 0, 1, 0, 0, 0, 0, 1]
    );
    assert_eq!(
        Matrix4x4i64::identity().as_slice(),
        [1, 0, 0, 0, 0, 1, 0, 0, 0, 0, 1, 0, 0, 0, 0, 1]
    );
    assert_eq!(Matrix2x2i32::identity_from(7, 9).as_slice(), [9, 7, 7, 9]);
}

#[test]
fn identity_times_vector_is_the_vector() {
    let v = Vector4i32::new(5, 10, 2, 1);
    assert_eq!(Matrix4x4i32::identity() * v, v);
    let w = Vector3i64::new(i64::MAX, i64::MIN, -1);
    assert_eq!(Matrix3x3i64::identity() * w, w);
    let u = Vector2i32::new(i32::MIN, i32::MAX);
    assert_eq!(Matrix2x2i32::identity() * u, u);
}

#[test]
fn identity_times_identity_is_identity() {
    let i = Matrix3x3i32::identity();
    assert_eq!(i * i, i);
    assert_eq!((i * i).as_slice(), [1, 0, 0, 0, 1, 0, 0, 0, 1]);
}

#[test]
fn matrix_product_is_associative() {
    let a = Matrix3x3i32::from_2d_array([[1, 2, 3], [4, 5, 6], [7, 8, 9]]);
    let b = Matrix3x3i32::from_2d_array([[-1, 0, 2], [3, -4, 1], [0, 5, -2]]);
    let c = Matrix3x3i32::from_2d_array([[2, 1, 0], [0, -3, 4], [5, 0, -6]]);
    assert_eq!((a * b) * c, a * (b * c));
    assert_eq!((a * b).as_slice(), [5, 7, -2, 11, 10, 1, 17, 13, 4]);
    assert_eq!(
        ((a * b) * c).as_slice(),
        [0, -16, 40, 27, -19, 34, 54, -22, 28]
    );
    let p = Matrix2x2i64::from_2d_array([[1, 2], [3, 4]]);
    let q = Matrix2x2i64::from_2d_array([[0, 1], [1, 0]]);
    let r = Matrix2x2i64::from_2d_array([[2, 0], [0, 3]]);
    assert_eq!((p * q) * r, p * (q * r));
    assert_eq!(((p * q) * r).as_slice(), [4, 3, 8, 9]);
}

#[test]
fn matrix_product_is_not_commutative() {
    let a = Matrix2x2i32::from_2d_array([[1, 2], [3, 4]]);
    let b = Matrix2x2i32::from_2d_array([[0, 1], [1, 0]]);
    assert_eq!((a * b).as_slice(), [2, 1, 4, 3]);
    assert_eq!((b * a).as_slice(), [3, 4, 1, 2]);
}

#[test]
fn matrix_times_vector_in_order_three() {
    let m = Matrix3x3i32::from_2d_array([[1, 2, 3], [4, 5, 6], [7, 8, 9]]);
    let v = Vector3i32::new(1, 0, -1);
    assert_eq!((m * v).as_slice(), [-2, -2, -2]);
    assert_eq!(m.mul_vec(&v, 0).as_slice(), [-2, -2, -2]);
    assert_eq!(m.mul_vec(&v, 100).as_slice(), [98, 98, 98]);
    assert_eq!(m.mul_mat(&Matrix3x3i32::identity(), 0), m);
}

#[test]
fn matrix_from_slice_rejects_every_other_length() {
    assert_eq!(
        Matrix2x2i32::from_slice(&[1, 2, 3]),
        Err(DimensionMismatch { expected: 4, found: 3 })
    );
    assert_eq!(
        Matrix3x3i32::from_slice(&[0; 10]),
        Err(DimensionMismatch { expected: 9, found: 10 })
    );
    assert_eq!(
        Matrix4x4i32::from_slice(&[]),
        Err(DimensionMismatch { expected: 16, found: 0 })
    );
    let m = Matrix2x2i32::from_slice(&[1, 2, 3, 4]).unwrap();
    assert_eq!(m, Matrix2x2i32::from_2d_array([[1, 2], [3, 4]]));
}

#[test]
fn matrix_get_is_row_major() {
    let m = Matrix3x3i32::from_2d_array([[1, 2, 3], [4, 5, 6], [7, 8, 9]]);
    for r in 0..5 {
        for c in 0..5 {
            let expected = if r < 3 && c < 3 { Some(m.as_slice()[r * 3 + c]) } else { None };
            assert_eq!(m.get(r, c), expected);
        }
    }
    assert_eq!(m.get(1, 2), Some(6));
    assert_eq!(m.get(2, 1), Some(8));
    assert_eq!(m.get(0, 3), None);
    assert_eq!(m.get(3, 0), None);
    assert_eq!(m.rows(), 3);
    assert_eq!(m.cols(), 3);
}

#[test]
fn matrix_rows_can_be_read_and_written() {
    let mut m = Matrix3x3i32::from_2d_array([[1, 2, 3], [4, 5, 6], [7, 8, 9]]);
    assert_eq!(m[0], [1, 2, 3]);
    assert_eq!(m[2], [7, 8, 9]);
    m[1][2] = 60;
    m[1][0] = 40;
    assert_eq!(m.as_slice(), [1, 2, 3, 40, 5, 60, 7, 8, 9]);
    m.set(2, 0, 70);
    assert_eq!(m.as_slice(), [1, 2, 3, 40, 5, 60, 70, 8, 9]);
    match m.get_mut(0, 1) {
        Some(slot) => *slot = 20,
        None => panic!("place (0, 1) exists"),
    }
    assert!(m.get_mut(3, 0).is_none());
    assert!(m.get_mut(0, 3).is_none());
    assert_eq!(m.as_slice(), [1, 20, 3, 40, 5, 60, 70, 8, 9]);
}

#[test]
fn matrix_operands_are_left_unchanged() {
    let a = Matrix2x2i32::from_2d_array([[1, 2], [3, 4]]);
    let b = Matrix2x2i32::from_2d_array([[5, 6], [7, 8]]);
    let _ = a + b;
    let _ = a * b;
    let _ = a * 2;
    let _ = -a;
    assert_eq!(a.as_slice(), [1, 2, 3, 4]);
    assert_eq!(b.as_slice(), [5, 6, 7, 8]);
    let generic: Matrix<i32, 2, 4> = a;
    assert_eq!(generic, a);
}
