//! Integer element types.
//!
//! Vectors and matrices are generic over their element type and reach its
//! arithmetic through the operators of `std::ops`. [`Integral`] singles out
//! the element types whose operators are exact integer arithmetic, and supplies
//! the two identity elements that `num_traits` defines for them.
use std::ops::{Add, Mul, Neg, Sub};
use vstd::prelude::*;
use vstd::std_specs::ops::{AddSpec, MulSpec, NegSpec, SubSpec};

verus! {

/// An element type that stands for a range of the integers: every value is an
/// integer, and `+`, `-`, `*` and unary `-` give the integer result whenever
/// that result is in the range.
pub trait Integral: Copy + Add<Output = Self> + Sub<Output = Self> + Mul<Output = Self> + Neg<
    Output = Self,
> {
    /// The integer that a value stands for.
    spec fn as_int(self) -> int;

    /// The value that stands for an integer of the range.
    spec fn from_int(v: int) -> Self;

    /// Whether an integer is in the range of the type.
    spec fn representable(v: int) -> bool;

    /// The additive identity.
    fn zero() -> (z: Self)
        ensures
            z == Self::from_int(0),
    ;

    /// The multiplicative identity.
    fn one() -> (o: Self)
        ensures
            o == Self::from_int(1),
    ;

    /// Values and the integers of the range correspond one to one, and the
    /// range holds 0 and 1.
    proof fn lemma_range(a: Self, v: int)
        ensures
            Self::representable(a.as_int()),
            Self::from_int(a.as_int()) == a,
            Self::representable(v) ==> Self::from_int(v).as_int() == v,
            Self::representable(0),
            Self::representable(1),
    ;

    /// `a + b` is defined exactly when the integer sum is in range, and is
    /// then that sum.
    proof fn lemma_add(a: Self, b: Self)
        ensures
            Self::obeys_add_spec(),
            a.add_req(b) <==> Self::representable(a.as_int() + b.as_int()),
            a.add_req(b) ==> a.add_spec(b) == Self::from_int(a.as_int() + b.as_int()),
    ;

    /// `a - b` is defined exactly when the integer difference is in range, and
    /// is then that difference.
    proof fn lemma_sub(a: Self, b: Self)
        ensures
            Self::obeys_sub_spec(),
            a.sub_req(b) <==> Self::representable(a.as_int() - b.as_int()),
            a.sub_req(b) ==> a.sub_spec(b) == Self::from_int(a.as_int() - b.as_int()),
    ;

    /// `a * b` is defined exactly when the integer product is in range, and is
    /// then that product.
    proof fn lemma_mul(a: Self, b: Self)
        ensures
            Self::obeys_mul_spec(),
            a.mul_req(b) <==> Self::representable(a.as_int() * b.as_int()),
            a.mul_req(b) ==> a.mul_spec(b) == Self::from_int(a.as_int() * b.as_int()),
    ;

    /// `-a` is defined exactly when the integer negation is in range, and is
    /// then that negation.
    proof fn lemma_neg(a: Self)
        ensures
            Self::obeys_neg_spec(),
            a.neg_req() <==> Self::representable(-a.as_int()),
            a.neg_req() ==> a.neg_spec() == Self::from_int(-a.as_int()),
    ;
}

/// The integers that the elements of `s` stand for.
pub open spec fn ints<T: Integral>(s: Seq<T>) -> Seq<int> {
    Seq::new(s.len(), |i: int| s[i].as_int())
}

/// Whether `T` represents every integer of `s`.
pub open spec fn all_representable<T: Integral>(s: Seq<int>) -> bool {
    forall|i: int| 0 <= i < s.len() ==> T::representable(#[trigger] s[i])
}

/// Sequences of elements that stand for the same integers are equal.
pub proof fn lemma_ints_injective<T: Integral>(x: Seq<T>, y: Seq<T>)
    requires
        ints(x) == ints(y),
    ensures
        x == y,
{
    assert(x.len() == ints(x).len());
    assert(y.len() == ints(y).len());
    assert forall|i: int| 0 <= i < x.len() implies x[i] == y[i] by {
        assert(ints(x)[i] == x[i].as_int());
        assert(ints(y)[i] == y[i].as_int());
        T::lemma_range(x[i], 0);
        T::lemma_range(y[i], 0);
    }
    assert(x =~= y);
}

/// `<i32 as num_traits::Zero>::zero`, which returns the literal `0`.
#[verifier::external_body]
fn zero_i32() -> (z: i32)
    ensures
        z == 0,
{
    <i32 as num_traits::Zero>::zero()
}

/// `<i32 as num_traits::One>::one`, which returns the literal `1`.
#[verifier::external_body]
fn one_i32() -> (o: i32)
    ensures
        o == 1,
{
    <i32 as num_traits::One>::one()
}

/// `<i64 as num_traits::Zero>::zero`, which returns the literal `0`.
#[verifier::external_body]
fn zero_i64() -> (z: i64)
    ensures
        z == 0,
{
    <i64 as num_traits::Zero>::zero()
}

/// `<i64 as num_traits::One>::one`, which returns the literal `1`.
#[verifier::external_body]
fn one_i64() -> (o: i64)
    ensures
        o == 1,
{
    <i64 as num_traits::One>::one()
}

impl Integral for i32 {
    open spec fn as_int(self) -> int {
        self as int
    }

    open spec fn from_int(v: int) -> Self {
        v as i32
    }

    open spec fn representable(v: int) -> bool {
        i32::MIN <= v <= i32::MAX
    }

    fn zero() -> (z: Self) {
        zero_i32()
    }

    fn one() -> (o: Self) {
        one_i32()
    }

    proof fn lemma_range(a: Self, v: int) {
    }

    proof fn lemma_add(a: Self, b: Self) {
    }

    proof fn lemma_sub(a: Self, b: Self) {
    }

    proof fn lemma_mul(a: Self, b: Self) {
    }

    proof fn lemma_neg(a: Self) {
    }
}

impl Integral for i64 {
    open spec fn as_int(self) -> int {
        self as int
    }

    open spec fn from_int(v: int) -> Self {
        v as i64
    }

    open spec fn representable(v: int) -> bool {
        i64::MIN <= v <= i64::MAX
    }

    fn zero() -> (z: Self) {
        zero_i64()
    }

    fn one() -> (o: Self) {
        one_i64()
    }

    proof fn lemma_range(a: Self, v: int) {
    }

    proof fn lemma_add(a: Self, b: Self) {
    }

    proof fn lemma_sub(a: Self, b: Self) {
    }

    proof fn lemma_mul(a: Self, b: Self) {
    }

    proof fn lemma_neg(a: Self) {
    }
}

} // verus!
