//! Sums of products, the model of the matrix products.
//!
//! A product is accumulated from a starting value, one term after the other:
//! `((zero + x[0] * y[0]) + x[1] * y[1]) + ...`. For an element type with
//! fixed width the order matters, since every partial sum must be defined.
use crate::scalar::{ints, Integral};
use std::ops::{Add, Mul};
use vstd::prelude::*;
use vstd::std_specs::ops::{AddSpec, MulSpec};

verus! {

/// The sum of `zero` and the first `k` products `x[i] * y[i]`, taken from the
/// left.
pub open spec fn dot_from<T: Add<Output = T> + Mul<Output = T>>(
    x: Seq<T>,
    y: Seq<T>,
    zero: T,
    k: nat,
) -> T
    decreases k,
{
    if k == 0 {
        zero
    } else {
        dot_from(x, y, zero, (k - 1) as nat).add_spec(x[k - 1].mul_spec(y[k - 1]))
    }
}

/// Whether each of the first `k` products, and each sum on the way to
/// `dot_from(x, y, zero, k)`, is defined.
pub open spec fn dot_from_req<T: Add<Output = T> + Mul<Output = T>>(
    x: Seq<T>,
    y: Seq<T>,
    zero: T,
    k: nat,
) -> bool
    decreases k,
{
    k == 0 || {
        &&& dot_from_req(x, y, zero, (k - 1) as nat)
        &&& x[k - 1].mul_req(y[k - 1])
        &&& dot_from(x, y, zero, (k - 1) as nat).add_req(x[k - 1].mul_spec(y[k - 1]))
    }
}

/// The elements `b[start]`, `b[start + stride]`, ..., `n` of them.
pub open spec fn strided<T>(b: Seq<T>, start: int, stride: int, n: nat) -> Seq<T> {
    Seq::new(n, |k: int| b[start + k * stride])
}

/// Accumulates, from `zero`, the products of the `n` elements of `a` from
/// `a_start` on with the `n` elements of `b` at `b_start`, `b_start +
/// b_stride`, and so on.
pub fn accumulate<T: Add<Output = T> + Mul<Output = T> + Copy>(
    a: &[T],
    a_start: usize,
    b: &[T],
    b_start: usize,
    b_stride: usize,
    n: usize,
    zero: T,
) -> (sum: T)
    requires
        T::obeys_add_spec(),
        T::obeys_mul_spec(),
        a_start + n <= a@.len(),
        n > 0 ==> b_start + (n - 1) * b_stride < b@.len(),
        dot_from_req(
            a@.subrange(a_start as int, a_start + n),
            strided(b@, b_start as int, b_stride as int, n as nat),
            zero,
            n as nat,
        ),
    ensures
        sum == dot_from(
            a@.subrange(a_start as int, a_start + n),
            strided(b@, b_start as int, b_stride as int, n as nat),
            zero,
            n as nat,
        ),
{
    let ghost x = a@.subrange(a_start as int, a_start + n);
    let ghost y = strided(b@, b_start as int, b_stride as int, n as nat);
    let a_len = a.len();
    let b_len = b.len();
    let mut sum = zero;
    let mut k: usize = 0;
    while k < n
        invariant
            k <= n,
            a_len == a@.len(),
            b_len == b@.len(),
            T::obeys_add_spec(),
            T::obeys_mul_spec(),
            a_start + n <= a@.len(),
            n > 0 ==> b_start + (n - 1) * b_stride < b@.len(),
            x == a@.subrange(a_start as int, a_start + n),
            y == strided(b@, b_start as int, b_stride as int, n as nat),
            dot_from_req(x, y, zero, n as nat),
            sum == dot_from(x, y, zero, k as nat),
        decreases n - k,
    {
        proof {
            lemma_dot_from_req_prefix(x, y, zero, n as nat, (k + 1) as nat);
            assert(0 <= k * b_stride <= (n - 1) * b_stride) by (nonlinear_arith)
                requires
                    k < n,
            ;
        }
        let term = a[a_start + k] * b[b_start + k * b_stride];
        sum = sum + term;
        k += 1;
    }
    sum
}

/// Where the accumulation of `k` terms is defined, so is that of fewer.
pub proof fn lemma_dot_from_req_prefix<T: Add<Output = T> + Mul<Output = T>>(
    x: Seq<T>,
    y: Seq<T>,
    zero: T,
    k: nat,
    j: nat,
)
    requires
        dot_from_req(x, y, zero, k),
        j <= k,
    ensures
        dot_from_req(x, y, zero, j),
    decreases k,
{
    if j < k {
        lemma_dot_from_req_prefix(x, y, zero, (k - 1) as nat, j);
    }
}

/// The sum of the first `k` products `x[i] * y[i]`.
pub open spec fn dot_int(x: Seq<int>, y: Seq<int>, k: nat) -> int
    decreases k,
{
    if k == 0 {
        0
    } else {
        dot_int(x, y, (k - 1) as nat) + x[k - 1] * y[k - 1]
    }
}

/// Whether each of the first `k` products `x[i] * y[i]`, and each sum of the
/// first `j <= k` of them, is an integer that `T` represents.
pub open spec fn dot_fits<T: Integral>(x: Seq<int>, y: Seq<int>, k: nat) -> bool {
    &&& forall|j: int| 0 <= j < k ==> T::representable(#[trigger] (x[j] * y[j]))
    &&& forall|j: nat| j <= k ==> T::representable(#[trigger] dot_int(x, y, j))
}

/// For an integer element type, the accumulation from zero is defined exactly
/// when no product and no partial sum leaves the range of the type, and its
/// result is then the integer sum of products.
pub proof fn lemma_dot_from_is_dot_int<T: Integral>(x: Seq<T>, y: Seq<T>, k: nat)
    requires
        k <= x.len(),
        k <= y.len(),
    ensures
        dot_from_req(x, y, T::from_int(0), k) <==> dot_fits::<T>(ints(x), ints(y), k),
        dot_from_req(x, y, T::from_int(0), k) ==> dot_from(x, y, T::from_int(0), k) == T::from_int(
            dot_int(ints(x), ints(y), k),
        ),
    decreases k,
{
    let zero = T::from_int(0);
    T::lemma_range(zero, 0);
    if k > 0 {
        let j = (k - 1) as nat;
        lemma_dot_from_is_dot_int::<T>(x, y, j);
        let a = x[k - 1];
        let b = y[k - 1];
        let before = dot_from(x, y, zero, j);
        T::lemma_mul(a, b);
        T::lemma_range(a, a.as_int() * b.as_int());
        T::lemma_range(a, dot_int(ints(x), ints(y), j));
        T::lemma_add(before, a.mul_spec(b));
        assert(ints(x)[k - 1] == a.as_int());
        assert(ints(y)[k - 1] == b.as_int());
        if dot_from_req(x, y, zero, k) {
            assert(dot_fits::<T>(ints(x), ints(y), j));
            assert(T::representable(ints(x)[k - 1] * ints(y)[k - 1]));
            assert(T::representable(dot_int(ints(x), ints(y), k)));
            assert forall|i: nat| i <= k implies T::representable(
                #[trigger] dot_int(ints(x), ints(y), i),
            ) by {
                if i < k {
                    assert(i <= j);
                }
            }
            assert(dot_fits::<T>(ints(x), ints(y), k));
        }
        if dot_fits::<T>(ints(x), ints(y), k) {
            assert(dot_fits::<T>(ints(x), ints(y), j)) by {
                assert forall|i: nat| i <= j implies T::representable(
                    #[trigger] dot_int(ints(x), ints(y), i),
                ) by {
                    assert(i <= k);
                }
            }
            assert(T::representable(ints(x)[k - 1] * ints(y)[k - 1]));
            assert(T::representable(dot_int(ints(x), ints(y), j)));
            assert(T::representable(dot_int(ints(x), ints(y), k)));
            assert(dot_from_req(x, y, zero, k));
        }
    } else {
        assert(dot_int(ints(x), ints(y), 0) == 0);
        assert(T::representable(dot_int(ints(x), ints(y), 0)));
    }
}

} // verus!
