//! Products of vectors of dimension 2 and 3.
//!
//! These are the operations that need no more of the element type than its
//! ring operators. Each is defined where every product, sum and difference on
//! the way is.
use crate::vector::{Vector, Vector2, Vector3};
use std::ops::{Add, Mul, Neg, Sub};
use vstd::prelude::*;
use vstd::std_specs::ops::{AddSpec, MulSpec, NegSpec, SubSpec};

verus! {

/// `a[0] * b[0] + a[1] * b[1]`.
pub open spec fn dot2<T: Add<Output = T> + Mul<Output = T>>(a: Seq<T>, b: Seq<T>) -> T {
    a[0].mul_spec(b[0]).add_spec(a[1].mul_spec(b[1]))
}

/// Whether the element type keeps to its operators' specifications and each
/// step of `dot2(a, b)` is defined.
pub open spec fn dot2_req<T: Add<Output = T> + Mul<Output = T>>(a: Seq<T>, b: Seq<T>) -> bool {
    &&& T::obeys_add_spec() && T::obeys_mul_spec()
    &&& a[0].mul_req(b[0])
    &&& a[1].mul_req(b[1])
    &&& a[0].mul_spec(b[0]).add_req(a[1].mul_spec(b[1]))
}

/// `a[0] * b[0] + a[1] * b[1] + a[2] * b[2]`, summed from the left.
pub open spec fn dot3<T: Add<Output = T> + Mul<Output = T>>(a: Seq<T>, b: Seq<T>) -> T {
    dot2(a, b).add_spec(a[2].mul_spec(b[2]))
}

/// Whether the element type keeps to its operators' specifications and each
/// step of `dot3(a, b)` is defined.
pub open spec fn dot3_req<T: Add<Output = T> + Mul<Output = T>>(a: Seq<T>, b: Seq<T>) -> bool {
    &&& dot2_req(a, b)
    &&& a[2].mul_req(b[2])
    &&& dot2(a, b).add_req(a[2].mul_spec(b[2]))
}

/// `a[i] * b[j] - a[j] * b[i]`, of which the cross product is made.
pub open spec fn minor<T: Sub<Output = T> + Mul<Output = T>>(
    a: Seq<T>,
    b: Seq<T>,
    i: int,
    j: int,
) -> T {
    a[i].mul_spec(b[j]).sub_spec(a[j].mul_spec(b[i]))
}

/// Whether each step of `minor(a, b, i, j)` is defined.
pub open spec fn minor_req<T: Sub<Output = T> + Mul<Output = T>>(
    a: Seq<T>,
    b: Seq<T>,
    i: int,
    j: int,
) -> bool {
    &&& a[i].mul_req(b[j])
    &&& a[j].mul_req(b[i])
    &&& a[i].mul_spec(b[j]).sub_req(a[j].mul_spec(b[i]))
}

/// The right-handed cross product:
/// `(a1*b2 - a2*b1, a2*b0 - a0*b2, a0*b1 - a1*b0)`.
pub open spec fn cross3<T: Sub<Output = T> + Mul<Output = T>>(a: Seq<T>, b: Seq<T>) -> Seq<T> {
    seq![minor(a, b, 1, 2), minor(a, b, 2, 0), minor(a, b, 0, 1)]
}

/// Whether the element type keeps to its operators' specifications and each
/// step of `cross3(a, b)` is defined.
pub open spec fn cross3_req<T: Sub<Output = T> + Mul<Output = T>>(a: Seq<T>, b: Seq<T>) -> bool {
    &&& T::obeys_sub_spec() && T::obeys_mul_spec()
    &&& minor_req(a, b, 1, 2)
    &&& minor_req(a, b, 2, 0)
    &&& minor_req(a, b, 0, 1)
}

/// Operations on vectors of dimension 3.
pub trait Vector3Ops<T>: View<V = Seq<T>> + Sized where
    T: Add<Output = T> + Sub<Output = T> + Mul<Output = T> + Copy,
 {
    /// The square of the length: the dot product of the vector with itself.
    fn length_squared(&self) -> (squared: T)
        requires
            dot3_req(self@, self@),
        ensures
            squared == dot3(self@, self@),
    ;

    /// The dot product: the sum of the products of the components.
    fn dot(&self, other: &Self) -> (product: T)
        requires
            dot3_req(self@, other@),
        ensures
            product == dot3(self@, other@),
    ;

    /// The right-handed cross product.
    fn cross(&self, other: &Self) -> (product: Self)
        requires
            cross3_req(self@, other@),
        ensures
            product@ == cross3(self@, other@),
    ;

    /// The first component.
    fn x(&self) -> (component: T)
        ensures
            component == self@[0],
    ;

    /// The second component.
    fn y(&self) -> (component: T)
        ensures
            component == self@[1],
    ;

    /// The third component.
    fn z(&self) -> (component: T)
        ensures
            component == self@[2],
    ;
}

/// Operations on vectors of dimension 2.
pub trait Vector2Ops<T>: View<V = Seq<T>> + Sized where
    T: Add<Output = T> + Mul<Output = T> + Neg<Output = T> + Copy,
 {
    /// The square of the length: the dot product of the vector with itself.
    fn length_squared(&self) -> (squared: T)
        requires
            dot2_req(self@, self@),
        ensures
            squared == dot2(self@, self@),
    ;

    /// The dot product: the sum of the products of the components.
    fn dot(&self, other: &Self) -> (product: T)
        requires
            dot2_req(self@, other@),
        ensures
            product == dot2(self@, other@),
    ;

    /// The first component.
    fn x(&self) -> (component: T)
        ensures
            component == self@[0],
    ;

    /// The second component.
    fn y(&self) -> (component: T)
        ensures
            component == self@[1],
    ;

    /// The vector turned by a quarter: `(x, y)` becomes `(-y, x)`.
    fn perpendicular(&self) -> (turned: Self)
        requires
            self@[1].neg_req(),
        ensures
            T::obeys_neg_spec() ==> turned@ == seq![self@[1].neg_spec(), self@[0]],
    ;
}

impl<T> Vector3Ops<T> for Vector3<T> where
    T: Add<Output = T> + Sub<Output = T> + Mul<Output = T> + Copy,
 {
    fn length_squared(&self) -> (squared: T) {
        self[0] * self[0] + self[1] * self[1] + self[2] * self[2]
    }

    fn dot(&self, other: &Self) -> (product: T) {
        self[0] * other[0] + self[1] * other[1] + self[2] * other[2]
    }

    fn cross(&self, other: &Self) -> (product: Self) {
        let product = Vector::<T, 3>::new(
            self[1] * other[2] - self[2] * other[1],
            self[2] * other[0] - self[0] * other[2],
            self[0] * other[1] - self[1] * other[0],
        );
        assert(product@ =~= cross3(self@, other@));
        product
    }

    fn x(&self) -> (component: T) {
        self[0]
    }

    fn y(&self) -> (component: T) {
        self[1]
    }

    fn z(&self) -> (component: T) {
        self[2]
    }
}

impl<T> Vector2Ops<T> for Vector2<T> where
    T: Add<Output = T> + Mul<Output = T> + Neg<Output = T> + Copy,
 {
    fn length_squared(&self) -> (squared: T) {
        self[0] * self[0] + self[1] * self[1]
    }

    fn dot(&self, other: &Self) -> (product: T) {
        self[0] * other[0] + self[1] * other[1]
    }

    fn x(&self) -> (component: T) {
        self[0]
    }

    fn y(&self) -> (component: T) {
        self[1]
    }

    fn perpendicular(&self) -> (turned: Self) {
        Vector::<T, 2>::new(self[1].neg(), self[0])
    }
}

} // verus!
