//! Element-wise arithmetic on matrices.
use crate::elementwise::{seq_add, seq_add_req, seq_neg, seq_neg_req, seq_scale, seq_scale_req};
use crate::matrix::Matrix;
use std::ops::{Add, Mul, Neg};
use vstd::prelude::*;
use vstd::std_specs::ops::{AddSpec, MulSpec, NegSpec};

verus! {

impl<T: Add<Output = T> + Copy, const N: usize, const S: usize> vstd::std_specs::ops::AddSpecImpl for Matrix<T, N, S> {
    open spec fn obeys_add_spec() -> bool {
        T::obeys_add_spec()
    }

    open spec fn add_req(self, rhs: Self) -> bool {
        seq_add_req(self@, rhs@)
    }

    open spec fn add_spec(self, rhs: Self) -> Self {
        Self::of(seq_add(self@, rhs@))
    }
}

impl<T: Add<Output = T> + Copy, const N: usize, const S: usize> Add for Matrix<T, N, S> {
    type Output = Self;

    /// The element-wise sum.
    fn add(self, rhs: Self) -> (sum: Self)
        ensures
            T::obeys_add_spec() ==> sum@ == seq_add(self@, rhs@),
    {
        let plus = |a: T, b: T| -> (c: T)
            requires
                a.add_req(b),
            ensures
                T::obeys_add_spec() ==> c == a.add_spec(b),
            {
                a + b
            };
        let sum = self.map_binary(&rhs, plus);
        proof {
            if T::obeys_add_spec() {
                assert(sum@ =~= seq_add(self@, rhs@));
                Self::lemma_of(seq_add(self@, rhs@));
                Self::lemma_view_injective(sum, Self::of(seq_add(self@, rhs@)));
            }
        }
        sum
    }
}

impl<T: Mul<Output = T> + Copy, const N: usize, const S: usize> vstd::std_specs::ops::MulSpecImpl<T> for Matrix<T, N, S> {
    open spec fn obeys_mul_spec() -> bool {
        T::obeys_mul_spec()
    }

    open spec fn mul_req(self, scalar: T) -> bool {
        seq_scale_req(self@, scalar)
    }

    open spec fn mul_spec(self, scalar: T) -> Self {
        Self::of(seq_scale(self@, scalar))
    }
}

impl<T: Mul<Output = T> + Copy, const N: usize, const S: usize> Mul<T> for Matrix<T, N, S> {
    type Output = Self;

    /// Every element times `scalar`.
    fn mul(self, scalar: T) -> (scaled: Self)
        ensures
            T::obeys_mul_spec() ==> scaled@ == seq_scale(self@, scalar),
    {
        let times = |a: T| -> (c: T)
            requires
                a.mul_req(scalar),
            ensures
                T::obeys_mul_spec() ==> c == a.mul_spec(scalar),
            {
                a * scalar
            };
        let scaled = self.map_unary(times);
        proof {
            if T::obeys_mul_spec() {
                assert(scaled@ =~= seq_scale(self@, scalar));
                Self::lemma_of(seq_scale(self@, scalar));
                Self::lemma_view_injective(scaled, Self::of(seq_scale(self@, scalar)));
            }
        }
        scaled
    }
}

impl<T: Neg<Output = T> + Copy, const N: usize, const S: usize> vstd::std_specs::ops::NegSpecImpl for Matrix<T, N, S> {
    open spec fn obeys_neg_spec() -> bool {
        T::obeys_neg_spec()
    }

    open spec fn neg_req(self) -> bool {
        seq_neg_req(self@)
    }

    open spec fn neg_spec(self) -> Self {
        Self::of(seq_neg(self@))
    }
}

impl<T: Neg<Output = T> + Copy, const N: usize, const S: usize> Neg for Matrix<T, N, S> {
    type Output = Self;

    /// Every element with its sign inverted.
    fn neg(self) -> (negated: Self)
        ensures
            T::obeys_neg_spec() ==> negated@ == seq_neg(self@),
    {
        let minus = |a: T| -> (c: T)
            requires
                a.neg_req(),
            ensures
                T::obeys_neg_spec() ==> c == a.neg_spec(),
            {
                a.neg()
            };
        let negated = self.map_unary(minus);
        proof {
            if T::obeys_neg_spec() {
                assert(negated@ =~= seq_neg(self@));
                Self::lemma_of(seq_neg(self@));
                Self::lemma_view_injective(negated, Self::of(seq_neg(self@)));
            }
        }
        negated
    }
}

} // verus!
