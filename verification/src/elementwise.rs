//! Element-wise arithmetic on sequences, the model of vector and matrix
//! arithmetic.
//!
//! Each operation comes as a pair: a predicate that says when the operation is
//! defined on every element (for a fixed-width integer, that no element
//! overflows), and the sequence of results.
use crate::scalar::{all_representable, ints, Integral};
use std::ops::{Add, Div, Mul, Neg, Sub};
use vstd::prelude::*;
use vstd::std_specs::ops::{AddSpec, DivSpec, MulSpec, NegSpec, SubSpec};

verus! {

/// Whether `a[i] + b[i]` is defined at every index.
pub open spec fn seq_add_req<T: Add<Output = T>>(a: Seq<T>, b: Seq<T>) -> bool {
    forall|i: int| 0 <= i < a.len() ==> (#[trigger] a[i]).add_req(b[i])
}

/// The sequence of the sums `a[i] + b[i]`.
pub open spec fn seq_add<T: Add<Output = T>>(a: Seq<T>, b: Seq<T>) -> Seq<T> {
    Seq::new(a.len(), |i: int| a[i].add_spec(b[i]))
}

/// Whether `a[i] - b[i]` is defined at every index.
pub open spec fn seq_sub_req<T: Sub<Output = T>>(a: Seq<T>, b: Seq<T>) -> bool {
    forall|i: int| 0 <= i < a.len() ==> (#[trigger] a[i]).sub_req(b[i])
}

/// The sequence of the differences `a[i] - b[i]`.
pub open spec fn seq_sub<T: Sub<Output = T>>(a: Seq<T>, b: Seq<T>) -> Seq<T> {
    Seq::new(a.len(), |i: int| a[i].sub_spec(b[i]))
}

/// Whether `a[i] * k` is defined at every index.
pub open spec fn seq_scale_req<T: Mul<Output = T>>(a: Seq<T>, k: T) -> bool {
    forall|i: int| 0 <= i < a.len() ==> (#[trigger] a[i]).mul_req(k)
}

/// The sequence of the products `a[i] * k`.
pub open spec fn seq_scale<T: Mul<Output = T>>(a: Seq<T>, k: T) -> Seq<T> {
    Seq::new(a.len(), |i: int| a[i].mul_spec(k))
}

/// Whether `a[i] / k` is defined at every index.
pub open spec fn seq_div_req<T: Div<Output = T>>(a: Seq<T>, k: T) -> bool {
    forall|i: int| 0 <= i < a.len() ==> (#[trigger] a[i]).div_req(k)
}

/// The sequence of the quotients `a[i] / k`.
pub open spec fn seq_div<T: Div<Output = T>>(a: Seq<T>, k: T) -> Seq<T> {
    Seq::new(a.len(), |i: int| a[i].div_spec(k))
}

/// Whether `-a[i]` is defined at every index.
pub open spec fn seq_neg_req<T: Neg<Output = T>>(a: Seq<T>) -> bool {
    forall|i: int| 0 <= i < a.len() ==> (#[trigger] a[i]).neg_req()
}

/// The sequence of the negations `-a[i]`.
pub open spec fn seq_neg<T: Neg<Output = T>>(a: Seq<T>) -> Seq<T> {
    Seq::new(a.len(), |i: int| a[i].neg_spec())
}

/// The sums `a[i] + b[i]` of integers.
pub open spec fn int_add(a: Seq<int>, b: Seq<int>) -> Seq<int> {
    Seq::new(a.len(), |i: int| a[i] + b[i])
}

/// The differences `a[i] - b[i]` of integers.
pub open spec fn int_sub(a: Seq<int>, b: Seq<int>) -> Seq<int> {
    Seq::new(a.len(), |i: int| a[i] - b[i])
}

/// The products `a[i] * k` of integers.
pub open spec fn int_scale(a: Seq<int>, k: int) -> Seq<int> {
    Seq::new(a.len(), |i: int| a[i] * k)
}

/// The negations `-a[i]` of integers.
pub open spec fn int_neg(a: Seq<int>) -> Seq<int> {
    Seq::new(a.len(), |i: int| -a[i])
}

/// For an integer element type, element-wise addition is defined exactly
/// when every integer sum is in the range of the type, and is then the
/// addition of integers.
pub proof fn lemma_seq_add_ints<T: Integral>(a: Seq<T>, b: Seq<T>)
    requires
        a.len() == b.len(),
    ensures
        seq_add_req(a, b) <==> all_representable::<T>(int_add(ints(a), ints(b))),
        seq_add_req(a, b) ==> ints(seq_add(a, b)) == int_add(ints(a), ints(b)),
{
    let sums = int_add(ints(a), ints(b));
    assert forall|i: int| 0 <= i < a.len() implies ((#[trigger] a[i]).add_req(b[i])
        <==> T::representable(sums[i])) && (a[i].add_req(b[i]) ==> a[i].add_spec(b[i]).as_int()
        == sums[i]) by {
        T::lemma_add(a[i], b[i]);
        T::lemma_range(a[i], sums[i]);
    }
    if seq_add_req(a, b) {
        assert forall|i: int| 0 <= i < sums.len() implies T::representable(#[trigger] sums[i]) by {
            assert(a[i].add_req(b[i]));
        }
        assert(ints(seq_add(a, b)) =~= sums) by {
            assert forall|i: int| 0 <= i < a.len() implies ints(seq_add(a, b))[i] == sums[i] by {
                assert(a[i].add_req(b[i]));
            }
        }
    }
    if all_representable::<T>(sums) {
        assert forall|i: int| 0 <= i < a.len() implies (#[trigger] a[i]).add_req(b[i]) by {
            assert(T::representable(sums[i]));
        }
    }
}

/// For an integer element type, element-wise subtraction is defined exactly
/// when every integer difference is in the range of the type, and is then the
/// subtraction of integers.
pub proof fn lemma_seq_sub_ints<T: Integral>(a: Seq<T>, b: Seq<T>)
    requires
        a.len() == b.len(),
    ensures
        seq_sub_req(a, b) <==> all_representable::<T>(int_sub(ints(a), ints(b))),
        seq_sub_req(a, b) ==> ints(seq_sub(a, b)) == int_sub(ints(a), ints(b)),
{
    let differences = int_sub(ints(a), ints(b));
    assert forall|i: int| 0 <= i < a.len() implies ((#[trigger] a[i]).sub_req(b[i])
        <==> T::representable(differences[i])) && (a[i].sub_req(b[i]) ==> a[i].sub_spec(
        b[i],
    ).as_int() == differences[i]) by {
        T::lemma_sub(a[i], b[i]);
        T::lemma_range(a[i], differences[i]);
    }
    if seq_sub_req(a, b) {
        assert forall|i: int| 0 <= i < differences.len() implies T::representable(
            #[trigger] differences[i],
        ) by {
            assert(a[i].sub_req(b[i]));
        }
        assert(ints(seq_sub(a, b)) =~= differences) by {
            assert forall|i: int| 0 <= i < a.len() implies ints(seq_sub(a, b))[i]
                == differences[i] by {
                assert(a[i].sub_req(b[i]));
            }
        }
    }
    if all_representable::<T>(differences) {
        assert forall|i: int| 0 <= i < a.len() implies (#[trigger] a[i]).sub_req(b[i]) by {
            assert(T::representable(differences[i]));
        }
    }
}

/// For an integer element type, scaling is defined exactly when every integer
/// product is in the range of the type, and is then the multiplication of
/// integers.
pub proof fn lemma_seq_scale_ints<T: Integral>(a: Seq<T>, k: T)
    ensures
        seq_scale_req(a, k) <==> all_representable::<T>(int_scale(ints(a), k.as_int())),
        seq_scale_req(a, k) ==> ints(seq_scale(a, k)) == int_scale(ints(a), k.as_int()),
{
    let products = int_scale(ints(a), k.as_int());
    assert forall|i: int| 0 <= i < a.len() implies ((#[trigger] a[i]).mul_req(k)
        <==> T::representable(products[i])) && (a[i].mul_req(k) ==> a[i].mul_spec(k).as_int()
        == products[i]) by {
        T::lemma_mul(a[i], k);
        T::lemma_range(a[i], products[i]);
    }
    if seq_scale_req(a, k) {
        assert forall|i: int| 0 <= i < products.len() implies T::representable(
            #[trigger] products[i],
        ) by {
            assert(a[i].mul_req(k));
        }
        assert(ints(seq_scale(a, k)) =~= products) by {
            assert forall|i: int| 0 <= i < a.len() implies ints(seq_scale(a, k))[i]
                == products[i] by {
                assert(a[i].mul_req(k));
            }
        }
    }
    if all_representable::<T>(products) {
        assert forall|i: int| 0 <= i < a.len() implies (#[trigger] a[i]).mul_req(k) by {
            assert(T::representable(products[i]));
        }
    }
}

/// For an integer element type, element-wise negation is defined exactly
/// when every integer negation is in the range of the type, and is then the
/// negation of integers.
pub proof fn lemma_seq_neg_ints<T: Integral>(a: Seq<T>)
    ensures
        seq_neg_req(a) <==> all_representable::<T>(int_neg(ints(a))),
        seq_neg_req(a) ==> ints(seq_neg(a)) == int_neg(ints(a)),
{
    let negations = int_neg(ints(a));
    assert forall|i: int| 0 <= i < a.len() implies ((#[trigger] a[i]).neg_req()
        <==> T::representable(negations[i])) && (a[i].neg_req() ==> a[i].neg_spec().as_int()
        == negations[i]) by {
        T::lemma_neg(a[i]);
        T::lemma_range(a[i], negations[i]);
    }
    if seq_neg_req(a) {
        assert forall|i: int| 0 <= i < negations.len() implies T::representable(
            #[trigger] negations[i],
        ) by {
            assert(a[i].neg_req());
        }
        assert(ints(seq_neg(a)) =~= negations) by {
            assert forall|i: int| 0 <= i < a.len() implies ints(seq_neg(a))[i]
                == negations[i] by {
                assert(a[i].neg_req());
            }
        }
    }
    if all_representable::<T>(negations) {
        assert forall|i: int| 0 <= i < a.len() implies (#[trigger] a[i]).neg_req() by {
            assert(T::representable(negations[i]));
        }
    }
}

/// An array whose elements are those of `s`; meaningful where `s` has length
/// `N` (see [`lemma_array_of`]).
pub open spec fn array_of<T, const N: usize>(s: Seq<T>) -> [T; N] {
    choose|a: [T; N]| a@ == s
}

spec fn array_filled<T, const N: usize>(s: Seq<T>, n: nat) -> [T; N]
    decreases n,
{
    if n == 0 {
        arbitrary()
    } else {
        vstd::array::spec_array_update(array_filled::<T, N>(s, (n - 1) as nat), n - 1, s[n - 1])
    }
}

proof fn lemma_array_filled<T, const N: usize>(s: Seq<T>, n: nat)
    requires
        n <= N,
        s.len() == N,
    ensures
        forall|i: int| 0 <= i < n ==> array_filled::<T, N>(s, n)@[i] == s[i],
    decreases n,
{
    if n > 0 {
        lemma_array_filled::<T, N>(s, (n - 1) as nat);
    }
}

/// Every sequence of length `N` is the view of an array, so `array_of` finds
/// one.
pub proof fn lemma_array_of<T, const N: usize>(s: Seq<T>)
    requires
        s.len() == N,
    ensures
        array_of::<T, N>(s)@ == s,
{
    lemma_array_filled::<T, N>(s, N as nat);
    assert(array_filled::<T, N>(s, N as nat)@ =~= s);
}

} // verus!
