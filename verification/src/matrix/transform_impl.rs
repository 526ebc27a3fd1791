//! The transform constructors of the matrices of order 2, 3 and 4.
use crate::matrix::transform_traits::{
    look_at_of, orthographic_of, perspective_of, rotation_2d_of, rotation_axis_angle_of,
    rotation_of, rotation_x_of, rotation_y_of, rotation_z_of, scale_2d_of, scale_of,
    translation_2d_of, translation_of, Transform2x2, Transform3x3, Transform4x4,
};
use crate::matrix::{Matrix2x2, Matrix3x3, Matrix4x4};
use crate::vector::vector_ops::Vector3Ops;
use crate::vector::{Vector2, Vector3};
use std::ops::{Add, Div, Mul, Neg, Sub};
use vstd::prelude::*;

verus! {

impl<T> Transform4x4<T> for Matrix4x4<T> where
    T: Add<Output = T> + Sub<Output = T> + Mul<Output = T> + Div<Output = T> + Neg<Output = T>
        + Copy,
 {
    fn perspective(f: T, aspect_ratio: T, near: T, far: T, zero: T, one: T) -> (m: Self) {
        let m = Self::from_2d_array(
            [
                [f / aspect_ratio, zero, zero, zero],
                [zero, f, zero, zero],
                [zero, zero, far / (near - far), (near * far) / (near - far)],
                [zero, zero, one.neg(), zero],
            ],
        );
        assert(m@ =~= perspective_of(f, aspect_ratio, near, far, zero, one));
        m
    }

    fn look_at(eye: Vector3<T>, forward: Vector3<T>, right: Vector3<T>, zero: T, one: T) -> (m:
        Self) {
        let up = right.cross(&forward);
        let m = Self::from_2d_array(
            [
                [right[0], right[1], right[2], right.dot(&eye).neg()],
                [up[0], up[1], up[2], up.dot(&eye).neg()],
                [forward[0].neg(), forward[1].neg(), forward[2].neg(), forward.dot(&eye)],
                [zero, zero, zero, one],
            ],
        );
        assert(m@ =~= look_at_of(eye@, forward@, right@, zero, one));
        m
    }

    fn translation(translation: Vector3<T>, zero: T, one: T) -> (m: Self) {
        let m = Self::from_2d_array(
            [
                [one, zero, zero, translation[0]],
                [zero, one, zero, translation[1]],
                [zero, zero, one, translation[2]],
                [zero, zero, zero, one],
            ],
        );
        assert(m@ =~= translation_of(translation@, zero, one));
        m
    }

    fn uniform_scale(scale: T, zero: T, one: T) -> (m: Self) {
        let m = Self::from_2d_array(
            [
                [scale, zero, zero, zero],
                [zero, scale, zero, zero],
                [zero, zero, scale, zero],
                [zero, zero, zero, one],
            ],
        );
        assert(m@ =~= scale_of(seq![scale, scale, scale], zero, one));
        m
    }

    fn scale(scale: Vector3<T>, zero: T, one: T) -> (m: Self) {
        let m = Self::from_2d_array(
            [
                [scale[0], zero, zero, zero],
                [zero, scale[1], zero, zero],
                [zero, zero, scale[2], zero],
                [zero, zero, zero, one],
            ],
        );
        assert(m@ =~= scale_of(scale@, zero, one));
        m
    }

    fn rotation_x(cos_a: T, sin_a: T, zero: T, one: T) -> (m: Self) {
        let m = Self::from_2d_array(
            [
                [one, zero, zero, zero],
                [zero, cos_a, sin_a.neg(), zero],
                [zero, sin_a, cos_a, zero],
                [zero, zero, zero, one],
            ],
        );
        assert(m@ =~= rotation_x_of(cos_a, sin_a, zero, one));
        m
    }

    fn rotation_y(cos_a: T, sin_a: T, zero: T, one: T) -> (m: Self) {
        let m = Self::from_2d_array(
            [
                [cos_a, zero, sin_a, zero],
                [zero, one, zero, zero],
                [sin_a.neg(), zero, cos_a, zero],
                [zero, zero, zero, one],
            ],
        );
        assert(m@ =~= rotation_y_of(cos_a, sin_a, zero, one));
        m
    }

    fn rotation_z(cos_a: T, sin_a: T, zero: T, one: T) -> (m: Self) {
        let m = Self::from_2d_array(
            [
                [cos_a, sin_a.neg(), zero, zero],
                [sin_a, cos_a, zero, zero],
                [zero, zero, one, zero],
                [zero, zero, zero, one],
            ],
        );
        assert(m@ =~= rotation_z_of(cos_a, sin_a, zero, one));
        m
    }

    fn rotation_axis_angle(axis: Vector3<T>, cos_a: T, sin_a: T, zero: T, one: T) -> (m: Self) {
        let one_minus_cos = one - cos_a;
        let x = axis[0];
        let y = axis[1];
        let z = axis[2];
        let m = Self::from_2d_array(
            [
                [
                    cos_a + x * x * one_minus_cos,
                    x * y * one_minus_cos - z * sin_a,
                    x * z * one_minus_cos + y * sin_a,
                    zero,
                ],
                [
                    y * x * one_minus_cos + z * sin_a,
                    cos_a + y * y * one_minus_cos,
                    y * z * one_minus_cos - x * sin_a,
                    zero,
                ],
                [
                    z * x * one_minus_cos - y * sin_a,
                    z * y * one_minus_cos + x * sin_a,
                    cos_a + z * z * one_minus_cos,
                    zero,
                ],
                [zero, zero, zero, one],
            ],
        );
        assert(m@ =~= rotation_axis_angle_of(axis@, cos_a, sin_a, zero, one));
        m
    }

    fn orthographic(left: T, right: T, bottom: T, top: T, near: T, far: T, zero: T, one: T) -> (m:
        Self) {
        let two = one + one;
        let m = Self::from_2d_array(
            [
                [two / (right - left), zero, zero, (right + left).neg() / (right - left)],
                [zero, two / (top - bottom), zero, (top + bottom).neg() / (top - bottom)],
                [zero, zero, two.neg() / (far - near), (far + near).neg() / (far - near)],
                [zero, zero, zero, one],
            ],
        );
        assert(m@ =~= orthographic_of(left, right, bottom, top, near, far, zero, one));
        m
    }
}

impl<T: Neg<Output = T> + Copy> Transform3x3<T> for Matrix3x3<T> {
    fn translation_2d(translation: Vector2<T>, zero: T, one: T) -> (m: Self) {
        let m = Self::from_2d_array(
            [[one, zero, translation[0]], [zero, one, translation[1]], [zero, zero, one]],
        );
        assert(m@ =~= translation_2d_of(translation@, zero, one));
        m
    }

    fn rotation_2d(cos_a: T, sin_a: T, zero: T, one: T) -> (m: Self) {
        let m = Self::from_2d_array(
            [[cos_a, sin_a.neg(), zero], [sin_a, cos_a, zero], [zero, zero, one]],
        );
        assert(m@ =~= rotation_2d_of(cos_a, sin_a, zero, one));
        m
    }

    fn scale_2d(scale: Vector2<T>, zero: T, one: T) -> (m: Self) {
        let m = Self::from_2d_array(
            [[scale[0], zero, zero], [zero, scale[1], zero], [zero, zero, one]],
        );
        assert(m@ =~= scale_2d_of(scale@, zero, one));
        m
    }

    fn uniform_scale_2d(scale: T, zero: T, one: T) -> (m: Self) {
        let m = Self::from_2d_array([[scale, zero, zero], [zero, scale, zero], [zero, zero, one]]);
        assert(m@ =~= scale_2d_of(seq![scale, scale], zero, one));
        m
    }
}

impl<T: Neg<Output = T> + Copy> Transform2x2<T> for Matrix2x2<T> {
    fn rotation_2d(cos_a: T, sin_a: T) -> (m: Self) {
        let m = Self::from_2d_array([[cos_a, sin_a.neg()], [sin_a, cos_a]]);
        assert(m@ =~= rotation_of(cos_a, sin_a));
        m
    }
}

} // verus!
