//! Finite sums of integers, and the associativity of the matrix product over
//! the integers.
use crate::dot::dot_int;
use crate::matrix::mat_mul_mat::mat_mul_int;
use crate::matrix::{col_of, lemma_offset, lemma_place, lemma_place_of_offset, offset, row_of};
use vstd::prelude::*;

verus! {

/// `f(0) + f(1) + ... + f(n - 1)`.
pub open spec fn sum(f: spec_fn(int) -> int, n: nat) -> int
    decreases n,
{
    if n == 0 {
        0
    } else {
        sum(f, (n - 1) as nat) + f(n - 1)
    }
}

/// Sums of terms that agree are equal.
pub proof fn lemma_sum_ext(f: spec_fn(int) -> int, g: spec_fn(int) -> int, n: nat)
    requires
        forall|k: int| 0 <= k < n ==> #[trigger] f(k) == g(k),
    ensures
        sum(f, n) == sum(g, n),
    decreases n,
{
    if n > 0 {
        lemma_sum_ext(f, g, (n - 1) as nat);
        assert(f(n - 1) == g(n - 1));
    }
}

/// The sum of sums is the sum of the sums.
pub proof fn lemma_sum_add(f: spec_fn(int) -> int, g: spec_fn(int) -> int, n: nat)
    ensures
        sum(|k: int| f(k) + g(k), n) == sum(f, n) + sum(g, n),
    decreases n,
{
    if n > 0 {
        lemma_sum_add(f, g, (n - 1) as nat);
    }
}

/// A factor common to all terms can be taken out of the sum.
pub proof fn lemma_sum_scale(f: spec_fn(int) -> int, c: int, n: nat)
    ensures
        sum(|k: int| c * f(k), n) == c * sum(f, n),
        sum(|k: int| f(k) * c, n) == sum(f, n) * c,
    decreases n,
{
    if n > 0 {
        lemma_sum_scale(f, c, (n - 1) as nat);
        let before = sum(f, (n - 1) as nat);
        let last = f(n - 1);
        assert(c * (before + last) == c * before + c * last) by (nonlinear_arith);
        assert((before + last) * c == before * c + last * c) by (nonlinear_arith);
    } else {
        assert(c * 0 == 0 && 0 * c == 0) by (nonlinear_arith);
    }
}

/// A sum over two indices can be taken in either order.
pub proof fn lemma_sum_swap(f: spec_fn(int, int) -> int, n: nat, m: nat)
    ensures
        sum(|k: int| sum(|l: int| f(k, l), m), n) == sum(|l: int| sum(|k: int| f(k, l), n), m),
    decreases n,
{
    let rows = |k: int| sum(|l: int| f(k, l), m);
    let cols = |l: int| sum(|k: int| f(k, l), n);
    if n == 0 {
        lemma_sum_ext(cols, |l: int| 0int, m);
        lemma_sum_zero(m);
    } else {
        let p = (n - 1) as nat;
        lemma_sum_swap(f, p, m);
        let cols_before = |l: int| sum(|k: int| f(k, l), p);
        let last = |l: int| f(n - 1, l);
        lemma_sum_add(cols_before, last, m);
        lemma_sum_ext(cols, |l: int| cols_before(l) + last(l), m);
        lemma_sum_ext(rows, |k: int| sum(|l: int| f(k, l), m), p);
        assert(rows(n - 1) == sum(last, m)) by {
            lemma_sum_ext(|l: int| f(n - 1, l), last, m);
        }
    }
}

/// A sum of zeros is zero.
pub proof fn lemma_sum_zero(n: nat)
    ensures
        sum(|k: int| 0int, n) == 0,
    decreases n,
{
    if n > 0 {
        lemma_sum_zero((n - 1) as nat);
    }
}

/// The sum of products of two sequences is the sum of its terms.
pub proof fn lemma_dot_int_is_sum(x: Seq<int>, y: Seq<int>, n: nat)
    ensures
        dot_int(x, y, n) == sum(|k: int| x[k] * y[k], n),
    decreases n,
{
    if n > 0 {
        lemma_dot_int_is_sum(x, y, (n - 1) as nat);
    }
}

/// The element of row `i` and column `j` of the product over the integers.
pub proof fn lemma_mat_mul_int_entry(a: Seq<int>, b: Seq<int>, n: int, i: int, j: int)
    requires
        0 <= i < n,
        0 <= j < n,
    ensures
        mat_mul_int(a, b, n).len() == n * n,
        mat_mul_int(a, b, n)[offset(n, i, j)] == dot_int(row_of(a, n, i), col_of(b, n, j), n as nat),
{
    lemma_offset(n, i, j);
    lemma_place_of_offset(n, i, j);
}

/// Over the integers the matrix product is associative: `(a b) c == a (b c)`.
pub proof fn lemma_mat_mul_int_associative(a: Seq<int>, b: Seq<int>, c: Seq<int>, n: int)
    requires
        0 < n,
        a.len() == n * n,
        b.len() == n * n,
        c.len() == n * n,
    ensures
        mat_mul_int(mat_mul_int(a, b, n), c, n) == mat_mul_int(a, mat_mul_int(b, c, n), n),
{
    let ab = mat_mul_int(a, b, n);
    let bc = mat_mul_int(b, c, n);
    let left = mat_mul_int(ab, c, n);
    let right = mat_mul_int(a, bc, n);
    assert forall|p: int| 0 <= p < n * n implies left[p] == right[p] by {
        lemma_place(n, p);
        let i = p / n;
        let j = p % n;
        let term = |k: int, l: int| a[offset(n, i, l)] * b[offset(n, l, k)] * c[offset(n, k, j)];
        // The left side, element (i, j): the sum over k of (a b)[i][k] * c[k][j].
        let left_terms = |k: int| row_of(ab, n, i)[k] * col_of(c, n, j)[k];
        lemma_dot_int_is_sum(row_of(ab, n, i), col_of(c, n, j), n as nat);
        assert forall|k: int| 0 <= k < n implies #[trigger] left_terms(k) == sum(
            |l: int| term(k, l),
            n as nat,
        ) by {
            lemma_mat_mul_int_entry(a, b, n, i, k);
            lemma_offset(n, i, k);
            lemma_offset(n, k, j);
            lemma_offset(n, i, 0);
            let inner = |l: int| row_of(a, n, i)[l] * col_of(b, n, k)[l];
            lemma_dot_int_is_sum(row_of(a, n, i), col_of(b, n, k), n as nat);
            lemma_sum_scale(inner, c[offset(n, k, j)], n as nat);
            assert forall|l: int| 0 <= l < n implies (#[trigger] inner(l)) * c[offset(n, k, j)]
                == term(k, l) by {
                lemma_offset(n, i, l);
                lemma_offset(n, l, k);
            }
            lemma_sum_ext(
                |l: int| inner(l) * c[offset(n, k, j)],
                |l: int| term(k, l),
                n as nat,
            );
        }
        lemma_sum_ext(left_terms, |k: int| sum(|l: int| term(k, l), n as nat), n as nat);
        // The right side, element (i, j): the sum over l of a[i][l] * (b c)[l][j].
        let right_terms = |l: int| row_of(a, n, i)[l] * col_of(bc, n, j)[l];
        lemma_dot_int_is_sum(row_of(a, n, i), col_of(bc, n, j), n as nat);
        assert forall|l: int| 0 <= l < n implies #[trigger] right_terms(l) == sum(
            |k: int| term(k, l),
            n as nat,
        ) by {
            lemma_mat_mul_int_entry(b, c, n, l, j);
            lemma_offset(n, i, l);
            lemma_offset(n, l, j);
            lemma_offset(n, l, 0);
            lemma_offset(n, i, 0);
            let inner = |k: int| row_of(b, n, l)[k] * col_of(c, n, j)[k];
            lemma_dot_int_is_sum(row_of(b, n, l), col_of(c, n, j), n as nat);
            lemma_sum_scale(inner, a[offset(n, i, l)], n as nat);
            assert forall|k: int| 0 <= k < n implies a[offset(n, i, l)] * (#[trigger] inner(k))
                == term(k, l) by {
                lemma_offset(n, l, k);
                lemma_offset(n, k, j);
                let x = a[offset(n, i, l)];
                let y = b[offset(n, l, k)];
                let z = c[offset(n, k, j)];
                assert(x * (y * z) == x * y * z) by (nonlinear_arith);
            }
            lemma_sum_ext(
                |k: int| a[offset(n, i, l)] * inner(k),
                |k: int| term(k, l),
                n as nat,
            );
        }
        lemma_sum_ext(right_terms, |l: int| sum(|k: int| term(k, l), n as nat), n as nat);
        lemma_sum_swap(term, n as nat, n as nat);
    }
    assert(left =~= right);
}

} // verus!
