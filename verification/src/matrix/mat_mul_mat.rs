//! The product of two matrices.
use crate::dot::{
    accumulate, dot_fits, dot_from, dot_from_req, dot_int, lemma_dot_from_is_dot_int, strided,
};
use crate::matrix::mat_mul_vec::lemma_ints_row;
use crate::matrix::{col_of, lemma_offset, lemma_place, offset, row_of, Matrix};
use crate::scalar::{ints, Integral};
use std::ops::{Add, Mul};
use vstd::prelude::*;
use vstd::std_specs::ops::{AddSpec, MulSpec};

verus! {

/// Whether each element of the product of the matrices `a` and `b` of order
/// `n` can be accumulated from `zero`.
pub open spec fn mat_mul_req<T: Add<Output = T> + Mul<Output = T>>(
    a: Seq<T>,
    b: Seq<T>,
    n: int,
    zero: T,
) -> bool {
    forall|i: int, j: int|
        0 <= i < n && 0 <= j < n ==> dot_from_req(
            #[trigger] row_of(a, n, i),
            #[trigger] col_of(b, n, j),
            zero,
            n as nat,
        )
}

/// The element of row `i` and column `j` of the product of the matrices `a`
/// and `b` of order `n`: the sum, from `zero`, of the products of row `i` of
/// `a` with column `j` of `b`.
pub open spec fn mat_mul_entry<T: Add<Output = T> + Mul<Output = T>>(
    a: Seq<T>,
    b: Seq<T>,
    n: int,
    zero: T,
    i: int,
    j: int,
) -> T {
    dot_from(row_of(a, n, i), col_of(b, n, j), zero, n as nat)
}

/// The product of the matrices `a` and `b` of order `n`, in row-major order.
pub open spec fn mat_mul<T: Add<Output = T> + Mul<Output = T>>(
    a: Seq<T>,
    b: Seq<T>,
    n: int,
    zero: T,
) -> Seq<T> {
    Seq::new((n * n) as nat, |k: int| mat_mul_entry(a, b, n, zero, k / n, k % n))
}

/// The product of the matrices `a` and `b` of order `n` over the integers, in
/// row-major order: the element of row `i` and column `j` is the sum over `k`
/// of `a[i][k] * b[k][j]`.
pub open spec fn mat_mul_int(a: Seq<int>, b: Seq<int>, n: int) -> Seq<int> {
    Seq::new((n * n) as nat, |k: int| dot_int(row_of(a, n, k / n), col_of(b, n, k % n), n as nat))
}

/// Whether, in the product of the integer matrices `a` and `b` of order `n`,
/// every product and every partial sum of every element is an integer that
/// `T` represents.
pub open spec fn mat_mul_fits<T: Integral>(a: Seq<int>, b: Seq<int>, n: int) -> bool {
    forall|i: int, j: int|
        0 <= i < n && 0 <= j < n ==> dot_fits::<T>(
            #[trigger] row_of(a, n, i),
            #[trigger] col_of(b, n, j),
            n as nat,
        )
}

/// The integers of a column are the column of the integers.
pub proof fn lemma_ints_col<T: Integral>(m: Seq<T>, n: int, c: int)
    requires
        0 <= c < n,
        m.len() == n * n,
    ensures
        ints(col_of(m, n, c)) == col_of(ints(m), n, c),
{
    assert forall|k: int| 0 <= k < n implies ints(col_of(m, n, c))[k] == col_of(ints(m), n, c)[k] by {
        lemma_offset(n, k, c);
    }
    assert(ints(col_of(m, n, c)) =~= col_of(ints(m), n, c));
}

impl<T: Add<Output = T> + Mul<Output = T> + Copy, const N: usize, const S: usize> Matrix<T, N, S> {
    /// The product of the matrix and `rhs`, each element accumulated from
    /// `zero`, the additive identity of the element type.
    pub fn mul_mat(&self, rhs: &Self, zero: T) -> (product: Self)
        requires
            Self::is_square(),
            T::obeys_add_spec(),
            T::obeys_mul_spec(),
            mat_mul_req(self@, rhs@, N as int, zero),
        ensures
            product@ == mat_mul(self@, rhs@, N as int, zero),
            forall|i: int, j: int|
                0 <= i < N && 0 <= j < N ==> #[trigger] product.at(i, j) == mat_mul_entry(
                    self@,
                    rhs@,
                    N as int,
                    zero,
                    i,
                    j,
                ),
    {
        let a = self.as_slice();
        let b = rhs.as_slice();
        let mut product = *self;
        let mut i: usize = 0;
        while i < N
            invariant
                i <= N,
                Self::is_square(),
                T::obeys_add_spec(),
                T::obeys_mul_spec(),
                a@ == self@,
                b@ == rhs@,
                mat_mul_req(self@, rhs@, N as int, zero),
                forall|r: int, c: int|
                    0 <= r < i && 0 <= c < N ==> #[trigger] product.at(r, c) == mat_mul_entry(
                        self@,
                        rhs@,
                        N as int,
                        zero,
                        r,
                        c,
                    ),
            decreases N - i,
        {
            let mut j: usize = 0;
            while j < N
                invariant
                    i < N,
                    j <= N,
                    Self::is_square(),
                    T::obeys_add_spec(),
                    T::obeys_mul_spec(),
                    a@ == self@,
                    b@ == rhs@,
                    mat_mul_req(self@, rhs@, N as int, zero),
                    forall|r: int, c: int|
                        0 <= r < i && 0 <= c < N ==> #[trigger] product.at(r, c) == mat_mul_entry(
                            self@,
                            rhs@,
                            N as int,
                            zero,
                            r,
                            c,
                        ),
                    forall|c: int|
                        0 <= c < j ==> #[trigger] product.at(i as int, c) == mat_mul_entry(
                            self@,
                            rhs@,
                            N as int,
                            zero,
                            i as int,
                            c,
                        ),
                decreases N - j,
            {
                proof {
                    lemma_offset(N as int, i as int, j as int);
                    lemma_offset(N as int, N - 1, j as int);
                    assert(strided(b@, j as int, N as int, N as nat) =~= col_of(
                        rhs@,
                        N as int,
                        j as int,
                    ));
                    assert(a@.subrange(i * N, i * N + N) == row_of(self@, N as int, i as int));
                    assert(dot_from_req(
                        row_of(self@, N as int, i as int),
                        col_of(rhs@, N as int, j as int),
                        zero,
                        N as nat,
                    ));
                }
                let sum = accumulate(a, i * N, b, j, N, N, zero);
                let ghost before = product;
                product.set(i, j, sum);
                proof {
                    assert forall|r: int, c: int| 0 <= r < i && 0 <= c < N implies #[trigger] product.at(
                        r,
                        c,
                    ) == mat_mul_entry(self@, rhs@, N as int, zero, r, c) by {
                        lemma_offset(N as int, r, c);
                        assert(offset(N as int, r, c) != offset(N as int, i as int, j as int));
                        assert(before.at(r, c) == mat_mul_entry(self@, rhs@, N as int, zero, r, c));
                    }
                    assert forall|c: int| 0 <= c < j + 1 implies #[trigger] product.at(i as int, c)
                        == mat_mul_entry(self@, rhs@, N as int, zero, i as int, c) by {
                        lemma_offset(N as int, i as int, c);
                        if c < j {
                            assert(offset(N as int, i as int, c) != offset(
                                N as int,
                                i as int,
                                j as int,
                            ));
                            assert(before.at(i as int, c) == mat_mul_entry(
                                self@,
                                rhs@,
                                N as int,
                                zero,
                                i as int,
                                c,
                            ));
                        }
                    }
                }
                j += 1;
            }
            i += 1;
        }
        proof {
            assert forall|k: int| 0 <= k < S implies product@[k] == mat_mul(
                self@,
                rhs@,
                N as int,
                zero,
            )[k] by {
                lemma_place(N as int, k);
                assert(product.at(k / (N as int), k % (N as int)) == product@[k]);
            }
            assert(product@ =~= mat_mul(self@, rhs@, N as int, zero));
        }
        product
    }
}

impl<T: Integral, const N: usize, const S: usize> vstd::std_specs::ops::MulSpecImpl<Matrix<T, N, S>> for Matrix<T, N, S> {
    open spec fn obeys_mul_spec() -> bool {
        true
    }

    open spec fn mul_req(self, rhs: Matrix<T, N, S>) -> bool {
        Self::is_square() && mat_mul_req(self@, rhs@, N as int, T::from_int(0))
    }

    open spec fn mul_spec(self, rhs: Matrix<T, N, S>) -> Matrix<T, N, S> {
        Self::of(mat_mul(self@, rhs@, N as int, T::from_int(0)))
    }
}

impl<T: Integral, const N: usize, const S: usize> Mul<Matrix<T, N, S>> for Matrix<T, N, S> {
    type Output = Matrix<T, N, S>;

    /// The matrix product: the element of row `i` and column `j` is the sum
    /// over `k` of `self[i][k] * rhs[k][j]`.
    fn mul(self, rhs: Matrix<T, N, S>) -> (product: Matrix<T, N, S>)
        ensures
            product@ == mat_mul(self@, rhs@, N as int, T::from_int(0)),
            ints(product@) == mat_mul_int(ints(self@), ints(rhs@), N as int),
    {
        let zero = T::zero();
        proof {
            T::lemma_add(zero, zero);
            T::lemma_mul(zero, zero);
        }
        let product = self.mul_mat(&rhs, zero);
        proof {
            let spec_product = mat_mul(self@, rhs@, N as int, zero);
            Self::lemma_of(spec_product);
            Self::lemma_view_injective(product, Self::of(spec_product));
            lemma_mat_mul_ints::<T>(self@, rhs@, N as int);
        }
        product
    }
}

/// For an integer element type, one element of the product can be accumulated
/// exactly when no product and no partial sum of it leaves the range of the
/// type, and is then the sum of products over the integers.
pub proof fn lemma_mat_mul_entry_ints<T: Integral>(a: Seq<T>, b: Seq<T>, n: int, i: int, j: int)
    requires
        a.len() == n * n,
        b.len() == n * n,
        0 <= i < n,
        0 <= j < n,
    ensures
        dot_from_req(row_of(a, n, i), col_of(b, n, j), T::from_int(0), n as nat) <==> dot_fits::<T>(
            row_of(ints(a), n, i),
            col_of(ints(b), n, j),
            n as nat,
        ),
        dot_from_req(row_of(a, n, i), col_of(b, n, j), T::from_int(0), n as nat) ==> mat_mul_entry(
            a,
            b,
            n,
            T::from_int(0),
            i,
            j,
        ).as_int() == dot_int(row_of(ints(a), n, i), col_of(ints(b), n, j), n as nat),
{
    let zero = T::from_int(0);
    lemma_offset(n, i, 0);
    lemma_ints_row(a, n, i);
    lemma_ints_col(b, n, j);
    lemma_dot_from_is_dot_int::<T>(row_of(a, n, i), col_of(b, n, j), n as nat);
    if dot_from_req(row_of(a, n, i), col_of(b, n, j), zero, n as nat) {
        let total = dot_int(row_of(ints(a), n, i), col_of(ints(b), n, j), n as nat);
        assert(T::representable(total));
        T::lemma_range(zero, total);
    }
}

/// For an integer element type, the product of two matrices is defined
/// exactly when no product and no partial sum of any element leaves the range
/// of the type, and is then the product over the integers.
pub proof fn lemma_mat_mul_ints<T: Integral>(a: Seq<T>, b: Seq<T>, n: int)
    requires
        0 < n,
        a.len() == n * n,
        b.len() == n * n,
    ensures
        mat_mul_req(a, b, n, T::from_int(0)) <==> mat_mul_fits::<T>(ints(a), ints(b), n),
        mat_mul_req(a, b, n, T::from_int(0)) ==> ints(mat_mul(a, b, n, T::from_int(0)))
            == mat_mul_int(ints(a), ints(b), n),
{
    let zero = T::from_int(0);
    if mat_mul_req(a, b, n, zero) {
        assert forall|i: int, j: int| 0 <= i < n && 0 <= j < n implies dot_fits::<T>(
            #[trigger] row_of(ints(a), n, i),
            #[trigger] col_of(ints(b), n, j),
            n as nat,
        ) by {
            assert(dot_from_req(row_of(a, n, i), col_of(b, n, j), zero, n as nat));
            lemma_mat_mul_entry_ints::<T>(a, b, n, i, j);
        }
        assert forall|k: int| 0 <= k < n * n implies ints(mat_mul(a, b, n, zero))[k] == mat_mul_int(
            ints(a),
            ints(b),
            n,
        )[k] by {
            lemma_place(n, k);
            assert(dot_from_req(row_of(a, n, k / n), col_of(b, n, k % n), zero, n as nat));
            lemma_mat_mul_entry_ints::<T>(a, b, n, k / n, k % n);
        }
        assert(ints(mat_mul(a, b, n, zero)) =~= mat_mul_int(ints(a), ints(b), n));
    }
    if mat_mul_fits::<T>(ints(a), ints(b), n) {
        assert forall|i: int, j: int| 0 <= i < n && 0 <= j < n implies dot_from_req(
            #[trigger] row_of(a, n, i),
            #[trigger] col_of(b, n, j),
            zero,
            n as nat,
        ) by {
            assert(dot_fits::<T>(row_of(ints(a), n, i), col_of(ints(b), n, j), n as nat));
            lemma_mat_mul_entry_ints::<T>(a, b, n, i, j);
        }
    }
}

} // verus!
