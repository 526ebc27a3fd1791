//! Constructors of the matrices of the standard transforms.
//!
//! A transform of the plane is a matrix of order 3, one of space a matrix of
//! order 4, both acting on column vectors in homogeneous coordinates: the
//! last column holds the translation and the last diagonal element is 1.
//! Rotations are right-handed.
//!
//! The constructors need no more of the element type than its operators. What
//! an operator cannot give is handed in: the additive and the multiplicative
//! identity of the element type as `zero` and `one`, the cosine and the sine
//! of an angle in place of the angle, and unit vectors in place of vectors
//! that would have to be normalized. Each constructor is defined where every
//! step of its formula is, and its result is the matrix of that formula.
use crate::vector::vector_ops::{cross3, cross3_req, dot3, dot3_req};
use crate::vector::{Vector2, Vector3};
use std::ops::{Add, Div, Mul, Neg, Sub};
use vstd::prelude::*;
use vstd::std_specs::ops::{AddSpec, DivSpec, MulSpec, NegSpec, SubSpec};

verus! {

/// The translation of space by `(v[0], v[1], v[2])`.
pub open spec fn translation_of<T>(v: Seq<T>, zero: T, one: T) -> Seq<T> {
    let (o, i) = (zero, one);
    seq![i, o, o, v[0], o, i, o, v[1], o, o, i, v[2], o, o, o, i]
}

/// The scaling of space by `v[0]`, `v[1]` and `v[2]` along the three axes.
pub open spec fn scale_of<T>(v: Seq<T>, zero: T, one: T) -> Seq<T> {
    let (o, i) = (zero, one);
    seq![v[0], o, o, o, o, v[1], o, o, o, o, v[2], o, o, o, o, i]
}

/// The rotation about the x axis by the angle of cosine `c` and sine `s`.
pub open spec fn rotation_x_of<T: Neg<Output = T>>(c: T, s: T, zero: T, one: T) -> Seq<T> {
    let (o, i) = (zero, one);
    seq![i, o, o, o, o, c, s.neg_spec(), o, o, s, c, o, o, o, o, i]
}

/// The rotation about the y axis by the angle of cosine `c` and sine `s`.
pub open spec fn rotation_y_of<T: Neg<Output = T>>(c: T, s: T, zero: T, one: T) -> Seq<T> {
    let (o, i) = (zero, one);
    seq![c, o, s, o, o, i, o, o, s.neg_spec(), o, c, o, o, o, o, i]
}

/// The rotation about the z axis by the angle of cosine `c` and sine `s`.
pub open spec fn rotation_z_of<T: Neg<Output = T>>(c: T, s: T, zero: T, one: T) -> Seq<T> {
    let (o, i) = (zero, one);
    seq![c, s.neg_spec(), o, o, s, c, o, o, o, o, i, o, o, o, o, i]
}

/// Whether a rotation by the angle of sine `s` is defined: the element type
/// keeps to the specification of its negation, and `-s` is defined.
pub open spec fn rotation_req<T: Neg<Output = T>>(s: T) -> bool {
    T::obeys_neg_spec() && s.neg_req()
}

/// `a * b * k`, a term of the rotation about an axis.
pub open spec fn axis_product<T: Mul<Output = T>>(a: T, b: T, k: T) -> T {
    a.mul_spec(b).mul_spec(k)
}

/// Whether each step of `axis_product(a, b, k)` is defined.
pub open spec fn axis_product_req<T: Mul<Output = T>>(a: T, b: T, k: T) -> bool {
    a.mul_req(b) && a.mul_spec(b).mul_req(k)
}

/// `c + a * a * k`, a diagonal element of the rotation about an axis.
pub open spec fn axis_diagonal<T: Add<Output = T> + Mul<Output = T>>(c: T, a: T, k: T) -> T {
    c.add_spec(axis_product(a, a, k))
}

/// Whether each step of `axis_diagonal(c, a, k)` is defined.
pub open spec fn axis_diagonal_req<T: Add<Output = T> + Mul<Output = T>>(c: T, a: T, k: T) -> bool {
    axis_product_req(a, a, k) && c.add_req(axis_product(a, a, k))
}

/// `a * b * k + w * s`, an element of the rotation about an axis.
pub open spec fn axis_above<T: Add<Output = T> + Mul<Output = T>>(
    a: T,
    b: T,
    k: T,
    w: T,
    s: T,
) -> T {
    axis_product(a, b, k).add_spec(w.mul_spec(s))
}

/// Whether each step of `axis_above(a, b, k, w, s)` is defined.
pub open spec fn axis_above_req<T: Add<Output = T> + Mul<Output = T>>(
    a: T,
    b: T,
    k: T,
    w: T,
    s: T,
) -> bool {
    axis_product_req(a, b, k) && w.mul_req(s) && axis_product(a, b, k).add_req(w.mul_spec(s))
}

/// `a * b * k - w * s`, an element of the rotation about an axis.
pub open spec fn axis_below<T: Sub<Output = T> + Mul<Output = T>>(
    a: T,
    b: T,
    k: T,
    w: T,
    s: T,
) -> T {
    axis_product(a, b, k).sub_spec(w.mul_spec(s))
}

/// Whether each step of `axis_below(a, b, k, w, s)` is defined.
pub open spec fn axis_below_req<T: Sub<Output = T> + Mul<Output = T>>(
    a: T,
    b: T,
    k: T,
    w: T,
    s: T,
) -> bool {
    axis_product_req(a, b, k) && w.mul_req(s) && axis_product(a, b, k).sub_req(w.mul_spec(s))
}

/// The rotation about the unit vector `axis` by the angle of cosine `c` and
/// sine `s`, by the formula of Rodrigues: with `k = 1 - c` and the axis
/// `(x, y, z)`, the rows of the rotation are
/// `(c + x x k, x y k - z s, x z k + y s)`,
/// `(y x k + z s, c + y y k, y z k - x s)` and
/// `(z x k - y s, z y k + x s, c + z z k)`.
pub open spec fn rotation_axis_angle_of<T: Add<Output = T> + Sub<Output = T> + Mul<Output = T>>(
    axis: Seq<T>,
    c: T,
    s: T,
    zero: T,
    one: T,
) -> Seq<T> {
    let (o, i) = (zero, one);
    let (x, y, z) = (axis[0], axis[1], axis[2]);
    let k = one.sub_spec(c);
    seq![
        axis_diagonal(c, x, k),
        axis_below(x, y, k, z, s),
        axis_above(x, z, k, y, s),
        o,
        axis_above(y, x, k, z, s),
        axis_diagonal(c, y, k),
        axis_below(y, z, k, x, s),
        o,
        axis_below(z, x, k, y, s),
        axis_above(z, y, k, x, s),
        axis_diagonal(c, z, k),
        o,
        o,
        o,
        o,
        i,
    ]
}

/// Whether the element type keeps to its operators' specifications and each
/// step of `rotation_axis_angle_of(axis, c, s, zero, one)` is defined.
pub open spec fn rotation_axis_angle_req<
    T: Add<Output = T> + Sub<Output = T> + Mul<Output = T>,
>(axis: Seq<T>, c: T, s: T, one: T) -> bool {
    let (x, y, z) = (axis[0], axis[1], axis[2]);
    let k = one.sub_spec(c);
    &&& T::obeys_add_spec() && T::obeys_sub_spec() && T::obeys_mul_spec()
    &&& one.sub_req(c)
    &&& axis_diagonal_req(c, x, k)
    &&& axis_below_req(x, y, k, z, s)
    &&& axis_above_req(x, z, k, y, s)
    &&& axis_above_req(y, x, k, z, s)
    &&& axis_diagonal_req(c, y, k)
    &&& axis_below_req(y, z, k, x, s)
    &&& axis_below_req(z, x, k, y, s)
    &&& axis_above_req(z, y, k, x, s)
    &&& axis_diagonal_req(c, z, k)
}

/// The view of an eye at `eye` that looks along the unit vector `forward`,
/// with the unit vector `right` to its right. With `up = right x forward`,
/// the rows of the rotation are `right`, `up` and `-forward`, and the
/// translation is `(-right . eye, -up . eye, forward . eye)`.
pub open spec fn look_at_of<
    T: Add<Output = T> + Sub<Output = T> + Mul<Output = T> + Neg<Output = T>,
>(eye: Seq<T>, forward: Seq<T>, right: Seq<T>, zero: T, one: T) -> Seq<T> {
    let (o, i) = (zero, one);
    let up = cross3(right, forward);
    seq![
        right[0],
        right[1],
        right[2],
        dot3(right, eye).neg_spec(),
        up[0],
        up[1],
        up[2],
        dot3(up, eye).neg_spec(),
        forward[0].neg_spec(),
        forward[1].neg_spec(),
        forward[2].neg_spec(),
        dot3(forward, eye),
        o,
        o,
        o,
        i,
    ]
}

/// Whether the element type keeps to its operators' specifications and each
/// step of `look_at_of(eye, forward, right, zero, one)` is defined.
pub open spec fn look_at_req<
    T: Add<Output = T> + Sub<Output = T> + Mul<Output = T> + Neg<Output = T>,
>(eye: Seq<T>, forward: Seq<T>, right: Seq<T>) -> bool {
    let up = cross3(right, forward);
    &&& T::obeys_neg_spec()
    &&& cross3_req(right, forward)
    &&& dot3_req(right, eye)
    &&& dot3_req(up, eye)
    &&& dot3_req(forward, eye)
    &&& dot3(right, eye).neg_req()
    &&& dot3(up, eye).neg_req()
    &&& forward[0].neg_req()
    &&& forward[1].neg_req()
    &&& forward[2].neg_req()
}

/// The perspective projection of focal length `f` (the cotangent of half the
/// vertical field of view): the diagonal starts with `f / aspect` and `f`,
/// the third row maps the depth by `far / (near - far)` and
/// `near * far / (near - far)`, and the fourth row holds `-1` in the third
/// column, for the perspective divide.
pub open spec fn perspective_of<
    T: Sub<Output = T> + Mul<Output = T> + Div<Output = T> + Neg<Output = T>,
>(f: T, aspect: T, near: T, far: T, zero: T, one: T) -> Seq<T> {
    let o = zero;
    let depth = near.sub_spec(far);
    seq![
        f.div_spec(aspect),
        o,
        o,
        o,
        o,
        f,
        o,
        o,
        o,
        o,
        far.div_spec(depth),
        near.mul_spec(far).div_spec(depth),
        o,
        o,
        one.neg_spec(),
        o,
    ]
}

/// Whether the element type keeps to its operators' specifications and each
/// step of `perspective_of(f, aspect, near, far, zero, one)` is defined.
pub open spec fn perspective_req<
    T: Sub<Output = T> + Mul<Output = T> + Div<Output = T> + Neg<Output = T>,
>(f: T, aspect: T, near: T, far: T, one: T) -> bool {
    let depth = near.sub_spec(far);
    &&& T::obeys_sub_spec() && T::obeys_mul_spec() && T::obeys_div_spec() && T::obeys_neg_spec()
    &&& f.div_req(aspect)
    &&& near.sub_req(far)
    &&& far.div_req(depth)
    &&& near.mul_req(far)
    &&& near.mul_spec(far).div_req(depth)
    &&& one.neg_req()
}

/// `2 / (high - low)`, the scale of one axis of an orthographic projection;
/// `two` is `1 + 1`.
pub open spec fn ortho_scale<T: Sub<Output = T> + Div<Output = T>>(two: T, low: T, high: T) -> T {
    two.div_spec(high.sub_spec(low))
}

/// Whether each step of `ortho_scale(two, low, high)` is defined.
pub open spec fn ortho_scale_req<T: Sub<Output = T> + Div<Output = T>>(
    two: T,
    low: T,
    high: T,
) -> bool {
    high.sub_req(low) && two.div_req(high.sub_spec(low))
}

/// `-(high + low) / (high - low)`, the offset of one axis of an orthographic
/// projection.
pub open spec fn ortho_offset<
    T: Add<Output = T> + Sub<Output = T> + Div<Output = T> + Neg<Output = T>,
>(low: T, high: T) -> T {
    high.add_spec(low).neg_spec().div_spec(high.sub_spec(low))
}

/// Whether each step of `ortho_offset(low, high)` is defined.
pub open spec fn ortho_offset_req<
    T: Add<Output = T> + Sub<Output = T> + Div<Output = T> + Neg<Output = T>,
>(low: T, high: T) -> bool {
    &&& high.add_req(low)
    &&& high.add_spec(low).neg_req()
    &&& high.sub_req(low)
    &&& high.add_spec(low).neg_spec().div_req(high.sub_spec(low))
}

/// The orthographic projection that maps the box between `left` and `right`,
/// `bottom` and `top`, `near` and `far` to the cube between -1 and 1: each
/// axis is scaled by `2 / (high - low)`, the depth by `-2 / (far - near)`,
/// and moved by `-(high + low) / (high - low)`.
pub open spec fn orthographic_of<
    T: Add<Output = T> + Sub<Output = T> + Div<Output = T> + Neg<Output = T>,
>(left: T, right: T, bottom: T, top: T, near: T, far: T, zero: T, one: T) -> Seq<T> {
    let (o, i) = (zero, one);
    let two = one.add_spec(one);
    seq![
        ortho_scale(two, left, right),
        o,
        o,
        ortho_offset(left, right),
        o,
        ortho_scale(two, bottom, top),
        o,
        ortho_offset(bottom, top),
        o,
        o,
        ortho_scale(two.neg_spec(), near, far),
        ortho_offset(near, far),
        o,
        o,
        o,
        i,
    ]
}

/// Whether the element type keeps to its operators' specifications and each
/// step of `orthographic_of(left, right, bottom, top, near, far, zero, one)`
/// is defined.
pub open spec fn orthographic_req<
    T: Add<Output = T> + Sub<Output = T> + Div<Output = T> + Neg<Output = T>,
>(left: T, right: T, bottom: T, top: T, near: T, far: T, one: T) -> bool {
    let two = one.add_spec(one);
    &&& T::obeys_add_spec() && T::obeys_sub_spec() && T::obeys_div_spec() && T::obeys_neg_spec()
    &&& one.add_req(one)
    &&& two.neg_req()
    &&& ortho_scale_req(two, left, right)
    &&& ortho_offset_req(left, right)
    &&& ortho_scale_req(two, bottom, top)
    &&& ortho_offset_req(bottom, top)
    &&& ortho_scale_req(two.neg_spec(), near, far)
    &&& ortho_offset_req(near, far)
}

/// The translation of the plane by `(v[0], v[1])`.
pub open spec fn translation_2d_of<T>(v: Seq<T>, zero: T, one: T) -> Seq<T> {
    let (o, i) = (zero, one);
    seq![i, o, v[0], o, i, v[1], o, o, i]
}

/// The scaling of the plane by `v[0]` and `v[1]` along the two axes.
pub open spec fn scale_2d_of<T>(v: Seq<T>, zero: T, one: T) -> Seq<T> {
    let (o, i) = (zero, one);
    seq![v[0], o, o, o, v[1], o, o, o, i]
}

/// The rotation of the plane by the angle of cosine `c` and sine `s`, in
/// homogeneous coordinates.
pub open spec fn rotation_2d_of<T: Neg<Output = T>>(c: T, s: T, zero: T, one: T) -> Seq<T> {
    let (o, i) = (zero, one);
    seq![c, s.neg_spec(), o, s, c, o, o, o, i]
}

/// The rotation of the plane by the angle of cosine `c` and sine `s`.
pub open spec fn rotation_of<T: Neg<Output = T>>(c: T, s: T) -> Seq<T> {
    seq![c, s.neg_spec(), s, c]
}

/// Transforms of space, as matrices of order 4.
pub trait Transform4x4<T>: View<V = Seq<T>> + Sized where
    T: Add<Output = T> + Sub<Output = T> + Mul<Output = T> + Div<Output = T> + Neg<Output = T>
        + Copy,
 {
    /// The perspective projection of focal length `f`, the cotangent of half
    /// the vertical field of view.
    fn perspective(f: T, aspect_ratio: T, near: T, far: T, zero: T, one: T) -> (m: Self)
        requires
            perspective_req(f, aspect_ratio, near, far, one),
        ensures
            m@ == perspective_of(f, aspect_ratio, near, far, zero, one),
    ;

    /// The view of an eye at `eye` that looks along the unit vector `forward`
    /// with the unit vector `right` to its right.
    fn look_at(eye: Vector3<T>, forward: Vector3<T>, right: Vector3<T>, zero: T, one: T) -> (m:
        Self)
        requires
            look_at_req(eye@, forward@, right@),
        ensures
            m@ == look_at_of(eye@, forward@, right@, zero, one),
    ;

    /// The translation by `translation`.
    fn translation(translation: Vector3<T>, zero: T, one: T) -> (m: Self)
        ensures
            m@ == translation_of(translation@, zero, one),
    ;

    /// The scaling by `scale` along each axis.
    fn uniform_scale(scale: T, zero: T, one: T) -> (m: Self)
        ensures
            m@ == scale_of(seq![scale, scale, scale], zero, one),
    ;

    /// The scaling by the components of `scale` along their axes.
    fn scale(scale: Vector3<T>, zero: T, one: T) -> (m: Self)
        ensures
            m@ == scale_of(scale@, zero, one),
    ;

    /// The rotation about the x axis by the angle of cosine `cos_a` and sine
    /// `sin_a`.
    fn rotation_x(cos_a: T, sin_a: T, zero: T, one: T) -> (m: Self)
        requires
            rotation_req(sin_a),
        ensures
            m@ == rotation_x_of(cos_a, sin_a, zero, one),
    ;

    /// The rotation about the y axis by the angle of cosine `cos_a` and sine
    /// `sin_a`.
    fn rotation_y(cos_a: T, sin_a: T, zero: T, one: T) -> (m: Self)
        requires
            rotation_req(sin_a),
        ensures
            m@ == rotation_y_of(cos_a, sin_a, zero, one),
    ;

    /// The rotation about the z axis by the angle of cosine `cos_a` and sine
    /// `sin_a`.
    fn rotation_z(cos_a: T, sin_a: T, zero: T, one: T) -> (m: Self)
        requires
            rotation_req(sin_a),
        ensures
            m@ == rotation_z_of(cos_a, sin_a, zero, one),
    ;

    /// The rotation about the unit vector `axis` by the angle of cosine
    /// `cos_a` and sine `sin_a`.
    fn rotation_axis_angle(axis: Vector3<T>, cos_a: T, sin_a: T, zero: T, one: T) -> (m: Self)
        requires
            rotation_axis_angle_req(axis@, cos_a, sin_a, one),
        ensures
            m@ == rotation_axis_angle_of(axis@, cos_a, sin_a, zero, one),
    ;

    /// The orthographic projection of the box between `left` and `right`,
    /// `bottom` and `top`, `near` and `far`.
    fn orthographic(left: T, right: T, bottom: T, top: T, near: T, far: T, zero: T, one: T) -> (m:
        Self)
        requires
            orthographic_req(left, right, bottom, top, near, far, one),
        ensures
            m@ == orthographic_of(left, right, bottom, top, near, far, zero, one),
    ;
}

/// Transforms of the plane, as matrices of order 3.
pub trait Transform3x3<T>: View<V = Seq<T>> + Sized where T: Neg<Output = T> + Copy {
    /// The translation by `translation`.
    fn translation_2d(translation: Vector2<T>, zero: T, one: T) -> (m: Self)
        ensures
            m@ == translation_2d_of(translation@, zero, one),
    ;

    /// The rotation about the origin by the angle of cosine `cos_a` and sine
    /// `sin_a`.
    fn rotation_2d(cos_a: T, sin_a: T, zero: T, one: T) -> (m: Self)
        requires
            rotation_req(sin_a),
        ensures
            m@ == rotation_2d_of(cos_a, sin_a, zero, one),
    ;

    /// The scaling by the components of `scale` along their axes.
    fn scale_2d(scale: Vector2<T>, zero: T, one: T) -> (m: Self)
        ensures
            m@ == scale_2d_of(scale@, zero, one),
    ;

    /// The scaling by `scale` along each axis.
    fn uniform_scale_2d(scale: T, zero: T, one: T) -> (m: Self)
        ensures
            m@ == scale_2d_of(seq![scale, scale], zero, one),
    ;
}

/// Rotations of the plane, as matrices of order 2.
pub trait Transform2x2<T>: View<V = Seq<T>> + Sized where T: Neg<Output = T> + Copy {
    /// The rotation about the origin by the angle of cosine `cos_a` and sine
    /// `sin_a`.
    fn rotation_2d(cos_a: T, sin_a: T) -> (m: Self)
        requires
            rotation_req(sin_a),
        ensures
            m@ == rotation_of(cos_a, sin_a),
    ;
}

} // verus!
