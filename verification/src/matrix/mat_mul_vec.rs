//! The product of a matrix and a vector.
use crate::dot::{
    accumulate, dot_fits, dot_from, dot_from_req, dot_int, lemma_dot_from_is_dot_int, strided,
};
use crate::matrix::{lemma_offset, row_of, Matrix};
use crate::scalar::{ints, Integral};
use crate::vector::Vector;
use std::ops::{Add, Mul};
use vstd::prelude::*;
use vstd::std_specs::ops::{AddSpec, MulSpec};

verus! {

/// Whether each element of the product of the matrix `m` of order `n` and the
/// vector `v` can be accumulated from `zero`.
pub open spec fn mat_vec_req<T: Add<Output = T> + Mul<Output = T>>(
    m: Seq<T>,
    n: int,
    v: Seq<T>,
    zero: T,
) -> bool {
    forall|i: int| 0 <= i < n ==> dot_from_req(#[trigger] row_of(m, n, i), v, zero, n as nat)
}

/// The product of the matrix `m` of order `n` and the vector `v`: element `i`
/// is the sum, from `zero`, of the products of row `i` with `v`.
pub open spec fn mat_vec<T: Add<Output = T> + Mul<Output = T>>(
    m: Seq<T>,
    n: int,
    v: Seq<T>,
    zero: T,
) -> Seq<T> {
    Seq::new(n as nat, |i: int| dot_from(row_of(m, n, i), v, zero, n as nat))
}

/// The product of the matrix `m` of order `n` and the vector `v`, over the
/// integers.
pub open spec fn mat_vec_int(m: Seq<int>, n: int, v: Seq<int>) -> Seq<int> {
    Seq::new(n as nat, |i: int| dot_int(row_of(m, n, i), v, n as nat))
}

/// The integers of a row are the row of the integers.
pub proof fn lemma_ints_row<T: Integral>(m: Seq<T>, n: int, r: int)
    requires
        0 <= r < n,
        m.len() == n * n,
    ensures
        ints(row_of(m, n, r)) == row_of(ints(m), n, r),
{
    lemma_offset(n, r, 0);
    assert(ints(row_of(m, n, r)) =~= row_of(ints(m), n, r));
}

impl<T: Add<Output = T> + Mul<Output = T> + Copy, const N: usize, const S: usize> Matrix<T, N, S> {
    /// The product of the matrix and the vector `v`, each element accumulated
    /// from `zero`, the additive identity of the element type.
    pub fn mul_vec(&self, v: &Vector<T, N>, zero: T) -> (product: Vector<T, N>)
        requires
            Self::is_square(),
            T::obeys_add_spec(),
            T::obeys_mul_spec(),
            mat_vec_req(self@, N as int, v@, zero),
        ensures
            product@ == mat_vec(self@, N as int, v@, zero),
    {
        let a = self.as_slice();
        let b = v.as_slice();
        let mut product = *v;
        let mut i: usize = 0;
        while i < N
            invariant
                i <= N,
                Self::is_square(),
                T::obeys_add_spec(),
                T::obeys_mul_spec(),
                a@ == self@,
                b@ == v@,
                mat_vec_req(self@, N as int, v@, zero),
                forall|r: int|
                    0 <= r < i ==> #[trigger] product@[r] == dot_from(
                        row_of(self@, N as int, r),
                        v@,
                        zero,
                        N as nat,
                    ),
            decreases N - i,
        {
            proof {
                lemma_offset(N as int, i as int, 0);
                assert(strided(b@, 0, 1, N as nat) =~= v@);
                assert(a@.subrange(i * N, i * N + N) == row_of(self@, N as int, i as int));
                assert(dot_from_req(row_of(self@, N as int, i as int), v@, zero, N as nat));
            }
            let sum = accumulate(a, i * N, b, 0, 1, N, zero);
            product.set(i, sum);
            i += 1;
        }
        assert(product@ =~= mat_vec(self@, N as int, v@, zero));
        product
    }
}

impl<T: Integral, const N: usize, const S: usize> vstd::std_specs::ops::MulSpecImpl<Vector<T, N>> for Matrix<T, N, S> {
    open spec fn obeys_mul_spec() -> bool {
        true
    }

    open spec fn mul_req(self, rhs: Vector<T, N>) -> bool {
        Self::is_square() && mat_vec_req(self@, N as int, rhs@, T::from_int(0))
    }

    open spec fn mul_spec(self, rhs: Vector<T, N>) -> Vector<T, N> {
        Vector::of(mat_vec(self@, N as int, rhs@, T::from_int(0)))
    }
}

impl<T: Integral, const N: usize, const S: usize> Mul<Vector<T, N>> for Matrix<T, N, S> {
    type Output = Vector<T, N>;

    /// The product of the matrix and the vector: element `i` is the sum of the
    /// products of row `i` with the vector.
    fn mul(self, rhs: Vector<T, N>) -> (product: Vector<T, N>)
        ensures
            product@ == mat_vec(self@, N as int, rhs@, T::from_int(0)),
            ints(product@) == mat_vec_int(ints(self@), N as int, ints(rhs@)),
    {
        let zero = T::zero();
        proof {
            T::lemma_add(zero, zero);
            T::lemma_mul(zero, zero);
        }
        let product = self.mul_vec(&rhs, zero);
        proof {
            let spec_product = mat_vec(self@, N as int, rhs@, zero);
            Vector::<T, N>::lemma_of(spec_product);
            Vector::<T, N>::lemma_view_injective(product, Vector::of(spec_product));
            lemma_mat_vec_ints::<T>(self@, N as int, rhs@);
        }
        product
    }
}

/// For an integer element type, the product of a matrix and a vector is
/// defined exactly when no product and no partial sum of any row leaves the
/// range of the type, and is then the product over the integers.
pub proof fn lemma_mat_vec_ints<T: Integral>(m: Seq<T>, n: int, v: Seq<T>)
    requires
        0 < n,
        m.len() == n * n,
        v.len() == n,
    ensures
        mat_vec_req(m, n, v, T::from_int(0)) <==> mat_vec_fits::<T>(ints(m), n, ints(v)),
        mat_vec_req(m, n, v, T::from_int(0)) ==> ints(mat_vec(m, n, v, T::from_int(0)))
            == mat_vec_int(ints(m), n, ints(v)),
{
    let zero = T::from_int(0);
    assert forall|i: int| 0 <= i < n implies (dot_from_req(row_of(m, n, i), v, zero, n as nat)
        <==> dot_fits::<T>(row_of(ints(m), n, i), ints(v), n as nat)) && (dot_from_req(
        row_of(m, n, i),
        v,
        zero,
        n as nat,
    ) ==> dot_from(row_of(m, n, i), v, zero, n as nat).as_int() == dot_int(
        row_of(ints(m), n, i),
        ints(v),
        n as nat,
    )) by {
        lemma_offset(n, i, 0);
        lemma_ints_row(m, n, i);
        lemma_dot_from_is_dot_int::<T>(row_of(m, n, i), v, n as nat);
        if dot_from_req(row_of(m, n, i), v, zero, n as nat) {
            let total = dot_int(row_of(ints(m), n, i), ints(v), n as nat);
            assert(T::representable(total));
            T::lemma_range(zero, total);
        }
    }
    if mat_vec_req(m, n, v, zero) {
        assert forall|i: int| 0 <= i < n implies dot_fits::<T>(
            #[trigger] row_of(ints(m), n, i),
            ints(v),
            n as nat,
        ) by {
            assert(dot_from_req(row_of(m, n, i), v, zero, n as nat));
        }
        assert(ints(mat_vec(m, n, v, zero)) =~= mat_vec_int(ints(m), n, ints(v))) by {
            assert forall|i: int| 0 <= i < n implies ints(mat_vec(m, n, v, zero))[i]
                == mat_vec_int(ints(m), n, ints(v))[i] by {
                assert(dot_from_req(row_of(m, n, i), v, zero, n as nat));
            }
        }
    }
    if mat_vec_fits::<T>(ints(m), n, ints(v)) {
        assert forall|i: int| 0 <= i < n implies dot_from_req(
            #[trigger] row_of(m, n, i),
            v,
            zero,
            n as nat,
        ) by {
            assert(dot_fits::<T>(row_of(ints(m), n, i), ints(v), n as nat));
        }
    }
}

/// Whether, in the product of the integer matrix `m` of order `n` and the
/// integer vector `v`, every product and every partial sum of every row is an
/// integer that `T` represents.
pub open spec fn mat_vec_fits<T: Integral>(m: Seq<int>, n: int, v: Seq<int>) -> bool {
    forall|i: int| 0 <= i < n ==> dot_fits::<T>(#[trigger] row_of(m, n, i), v, n as nat)
}

} // verus!
