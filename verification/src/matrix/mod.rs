//! Square matrices of fixed order.
use crate::elementwise::{array_of, lemma_array_of};
use crate::error::DimensionMismatch;
use std::ops::{Index, IndexMut};
use vstd::prelude::*;

pub mod base_ops;
pub mod identity_ops;
pub mod mat_mul_mat;
pub mod mat_mul_vec;
pub mod transform_impl;
pub mod transform_traits;

verus! {

pub type Matrix2x2<T> = Matrix<T, 2, 4>;

pub type Matrix3x3<T> = Matrix<T, 3, 9>;

pub type Matrix4x4<T> = Matrix<T, 4, 16>;

pub type Matrix2x2i32 = Matrix2x2<i32>;

pub type Matrix2x2i64 = Matrix2x2<i64>;

pub type Matrix3x3i32 = Matrix3x3<i32>;

pub type Matrix3x3i64 = Matrix3x3<i64>;

pub type Matrix4x4i32 = Matrix4x4<i32>;

pub type Matrix4x4i64 = Matrix4x4<i64>;

/// A matrix of `N` rows and `N` columns, held as its `S` elements in
/// row-major order: the element of row `r` and column `c` is element
/// `r * N + c` of the view. `S` is `N * N`, as in the aliases [`Matrix2x2`],
/// [`Matrix3x3`] and [`Matrix4x4`].
#[derive(Debug, Clone, Copy, PartialEq)]
pub struct Matrix<T, const N: usize, const S: usize> {
    data: [T; S],
}

impl<T, const N: usize, const S: usize> View for Matrix<T, N, S> {
    type V = Seq<T>;

    open spec fn view(&self) -> Seq<T> {
        Seq::new(S as nat, |i: int| self.element(i))
    }
}

/// Row `r` of the row-major sequence `m` of a matrix of order `n`.
pub open spec fn row_of<T>(m: Seq<T>, n: int, r: int) -> Seq<T> {
    m.subrange(r * n, r * n + n)
}

/// Column `c` of the row-major sequence `m` of a matrix of order `n`.
pub open spec fn col_of<T>(m: Seq<T>, n: int, c: int) -> Seq<T> {
    Seq::new(n as nat, |k: int| m[k * n + c])
}

/// The elements of `N` rows of `N`, row after row.
pub open spec fn row_major<T, const N: usize>(rows: [[T; N]; N]) -> Seq<T> {
    Seq::new((N * N) as nat, |k: int| rows@[k / (N as int)]@[k % (N as int)])
}

/// Where the element of row `r` and column `c` stands in the row-major
/// sequence of a matrix of order `n`.
pub open spec fn offset(n: int, r: int, c: int) -> int {
    r * n + c
}

/// The offset of row `r`, column `c` is inside a matrix of order `n`, and no
/// other place of the matrix has it.
pub proof fn lemma_offset(n: int, r: int, c: int)
    requires
        0 <= r < n,
        0 <= c < n,
    ensures
        0 <= r * n + c < n * n,
        r * n + n <= n * n,
        0 <= r * n,
        forall|i: int, j: int|
            0 <= i < n && 0 <= j < n && (i != r || j != c) ==> #[trigger] offset(n, i, j)
                != offset(n, r, c),
{
    assert(0 <= r * n && r * n + n <= n * n) by (nonlinear_arith)
        requires
            0 <= r < n,
    ;
    assert forall|i: int, j: int|
        0 <= i < n && 0 <= j < n && (i != r || j != c) implies #[trigger] offset(n, i, j)
        != offset(n, r, c) by {
        if i < r {
            assert(i * n + n <= r * n) by (nonlinear_arith)
                requires
                    i < r,
                    0 < n,
            ;
        } else if r < i {
            assert(r * n + n <= i * n) by (nonlinear_arith)
                requires
                    r < i,
                    0 < n,
            ;
        }
    }
}

/// Every offset inside a matrix of order `n` is that of exactly one place:
/// row `k / n`, column `k % n`.
pub proof fn lemma_place(n: int, k: int)
    requires
        0 < n,
        0 <= k < n * n,
    ensures
        0 <= k / n < n,
        0 <= k % n < n,
        offset(n, k / n, k % n) == k,
{
    vstd::arithmetic::div_mod::lemma_fundamental_div_mod(k, n);
    vstd::arithmetic::div_mod::lemma_mod_bound(k, n);
    let q = k / n;
    assert(0 <= q < n) by (nonlinear_arith)
        requires
            0 < n,
            0 <= k < n * n,
            k == n * q + (k % n),
            0 <= k % n < n,
    ;
    assert(q * n == n * q) by (nonlinear_arith);
}

/// The place of an offset is the place it was computed from.
pub proof fn lemma_place_of_offset(n: int, r: int, c: int)
    requires
        0 <= r < n,
        0 <= c < n,
    ensures
        offset(n, r, c) / n == r,
        offset(n, r, c) % n == c,
{
    vstd::arithmetic::div_mod::lemma_fundamental_div_mod_converse(r * n + c, n, r, c);
}

impl<T, const N: usize, const S: usize> Matrix<T, N, S> {
    /// Whether the two parameters of the type fit together: the matrix has at
    /// least one row, and `S` counts the elements of `N` rows of `N`.
    pub open spec fn is_square() -> bool {
        0 < N && S == N * N
    }

    /// Element `i` in row-major order.
    pub closed spec fn element(&self, i: int) -> T {
        self.data@[i]
    }

    /// The element of row `r` and column `c`.
    pub open spec fn at(&self, r: int, c: int) -> T {
        self@[offset(N as int, r, c)]
    }

    /// The matrix whose elements in row-major order are those of `s`;
    /// meaningful where `s` has length `S` (see [`Matrix::lemma_of`]).
    pub closed spec fn of(s: Seq<T>) -> Self {
        Matrix { data: array_of::<T, S>(s) }
    }

    /// `Matrix::of(s)` has the elements `s`.
    pub proof fn lemma_of(s: Seq<T>)
        requires
            s.len() == S,
        ensures
            Self::of(s)@ == s,
    {
        lemma_array_of::<T, S>(s);
        assert(Self::of(s)@ =~= s);
    }

    /// Matrices with the same elements are equal.
    pub proof fn lemma_view_injective(a: Self, b: Self)
        requires
            a@ == b@,
        ensures
            a == b,
    {
        a.lemma_view();
        b.lemma_view();
        assert(a.data =~= b.data);
    }

    proof fn lemma_view(&self)
        ensures
            self@ == self.data@,
    {
        assert(self@ =~= self.data@);
    }

    proof fn lemma_views()
        ensures
            forall|m: Self| #[trigger] m@ == m.data@,
    {
        assert forall|m: Self| #[trigger] m@ == m.data@ by {
            m.lemma_view();
        }
    }
}

impl<T: Copy, const N: usize, const S: usize> Matrix<T, N, S> {
    /// The matrix whose elements in row-major order are those of the slice,
    /// which must be exactly `S`; any other length is a dimension mismatch.
    pub fn from_slice(elements: &[T]) -> (built: Result<Self, DimensionMismatch>)
        requires
            0 < S,
        ensures
            elements@.len() == S ==> built is Ok && built->Ok_0@ == elements@,
            elements@.len() != S ==> built == Err::<Self, DimensionMismatch>(
                DimensionMismatch { expected: S, found: elements@.len() as usize },
            ),
    {
        if elements.len() != S {
            return Err(DimensionMismatch { expected: S, found: elements.len() });
        }
        let mut data: [T; S] = [elements[0];S];
        let mut i: usize = 0;
        while i < S
            invariant
                i <= S,
                elements@.len() == S,
                forall|k: int| 0 <= k < i ==> data@[k] == elements@[k],
            decreases S - i,
        {
            data[i] = elements[i];
            i += 1;
        }
        let m = Matrix { data };
        assert(m@ =~= elements@);
        Ok(m)
    }

    /// The matrix whose rows are the given rows.
    pub fn from_2d_array(elements: [[T; N]; N]) -> (m: Self)
        requires
            Self::is_square(),
        ensures
            m@ == row_major(elements),
            forall|r: int, c: int|
                0 <= r < N && 0 <= c < N ==> #[trigger] m.at(r, c) == elements@[r]@[c],
    {
        let mut data: [T; S] = [elements[0][0];S];
        let mut r: usize = 0;
        while r < N
            invariant
                r <= N,
                Self::is_square(),
                forall|i: int, j: int|
                    0 <= i < r && 0 <= j < N ==> data@[offset(N as int, i, j)]
                        == #[trigger] elements@[i]@[j],
            decreases N - r,
        {
            let mut c: usize = 0;
            while c < N
                invariant
                    r < N,
                    c <= N,
                    Self::is_square(),
                    forall|i: int, j: int|
                        0 <= i < r && 0 <= j < N ==> data@[offset(N as int, i, j)]
                            == #[trigger] elements@[i]@[j],
                    forall|j: int|
                        0 <= j < c ==> data@[offset(N as int, r as int, j)]
                            == #[trigger] elements@[r as int]@[j],
                decreases N - c,
            {
                proof {
                    lemma_offset(N as int, r as int, c as int);
                }
                let ghost before = data;
                data[r * N + c] = elements[r][c];
                assert forall|i: int, j: int| 0 <= i < r && 0 <= j < N implies data@[offset(
                    N as int,
                    i,
                    j,
                )] == #[trigger] elements@[i]@[j] by {
                    lemma_offset(N as int, i, j);
                    assert(offset(N as int, i, j) != offset(N as int, r as int, c as int));
                }
                assert forall|j: int| 0 <= j < c + 1 implies data@[offset(N as int, r as int, j)]
                    == #[trigger] elements@[r as int]@[j] by {
                    lemma_offset(N as int, r as int, j);
                    if j < c {
                        assert(offset(N as int, r as int, j) != offset(
                            N as int,
                            r as int,
                            c as int,
                        ));
                    }
                }
                c += 1;
            }
            r += 1;
        }
        let m = Matrix { data };
        proof {
            m.lemma_view();
            assert forall|r: int, c: int| 0 <= r < N && 0 <= c < N implies #[trigger] m.at(r, c)
                == elements@[r]@[c] by {
                lemma_offset(N as int, r, c);
            }
            assert forall|k: int| 0 <= k < S implies m@[k] == row_major(elements)[k] by {
                lemma_place(N as int, k);
                assert(m@[k] == m.at(k / (N as int), k % (N as int)));
            }
            assert(m@ =~= row_major(elements));
        }
        m
    }

    /// The element of row `row` and column `col`, or `None` where the matrix
    /// has no such place.
    pub fn get(&self, row: usize, col: usize) -> (found: Option<T>)
        requires
            Self::is_square(),
        ensures
            found == (if row < N && col < N {
                Some(self.at(row as int, col as int))
            } else {
                None
            }),
    {
        if row < N && col < N {
            proof {
                self.lemma_view();
                lemma_offset(N as int, row as int, col as int);
            }
            Some(self.data[row * N + col])
        } else {
            None
        }
    }

    /// A reference through which the element of row `row` and column `col`
    /// can be written, or `None` where the matrix has no such place.
    pub fn get_mut(&mut self, row: usize, col: usize) -> (found: Option<&mut T>)
        requires
            Self::is_square(),
        ensures
            !(row < N && col < N) ==> found is None && *final(self) == *old(self),
            row < N && col < N ==> found is Some,
            row < N && col < N ==> *found->Some_0 == old(self).at(row as int, col as int),
            row < N && col < N ==> final(self)@ == old(self)@.update(
                row * N + col,
                *final(found->Some_0),
            ),
    {
        if row < N && col < N {
            proof {
                Self::lemma_views();
                lemma_offset(N as int, row as int, col as int);
            }
            Some(&mut self.data[row * N + col])
        } else {
            None
        }
    }

    /// Overwrites the element of row `row` and column `col`.
    pub fn set(&mut self, row: usize, col: usize, val: T)
        requires
            Self::is_square(),
            row < N,
            col < N,
        ensures
            final(self)@ == old(self)@.update(row * N + col, val),
    {
        proof {
            lemma_offset(N as int, row as int, col as int);
        }
        let index = row * N + col;
        self.data[index] = val;
        assert(self@ =~= old(self)@.update(row * N + col, val));
    }

    /// The number of rows.
    pub fn rows(&self) -> (n: usize)
        ensures
            n == N,
    {
        N
    }

    /// The number of columns.
    pub fn cols(&self) -> (n: usize)
        ensures
            n == N,
    {
        N
    }

    /// The elements, in row-major order.
    pub fn as_slice(&self) -> (elements: &[T])
        ensures
            elements@ == self@,
    {
        proof {
            self.lemma_view();
        }
        self.data.as_slice()
    }

    /// Applies `f` to each element of `self`.
    pub(crate) fn map_unary<F>(&self, f: F) -> (out: Self) where F: Fn(T) -> T
        requires
            forall|i: int| 0 <= i < S ==> f.requires((#[trigger] self@[i],)),
        ensures
            forall|i: int| 0 <= i < S ==> f.ensures((self@[i],), #[trigger] out@[i]),
    {
        let mut out = *self;
        let mut i: usize = 0;
        while i < S
            invariant
                i <= S,
                forall|k: int| 0 <= k < S ==> f.requires((#[trigger] self@[k],)),
                forall|k: int| 0 <= k < i ==> f.ensures((self@[k],), #[trigger] out@[k]),
            decreases S - i,
        {
            assert(f.requires((self@[i as int],)));
            let value = f(self.data[i]);
            let ghost before = out;
            out.data[i] = value;
            assert(out@ =~= before@.update(i as int, value));
            i += 1;
        }
        out
    }

    /// Applies `f` to each pair of elements of `self` and `rhs`.
    pub(crate) fn map_binary<F>(&self, rhs: &Self, f: F) -> (out: Self) where F: Fn(T, T) -> T
        requires
            forall|i: int| 0 <= i < S ==> f.requires((#[trigger] self@[i], rhs@[i])),
        ensures
            forall|i: int| 0 <= i < S ==> f.ensures((self@[i], rhs@[i]), #[trigger] out@[i]),
    {
        let mut out = *self;
        let mut i: usize = 0;
        while i < S
            invariant
                i <= S,
                forall|k: int| 0 <= k < S ==> f.requires((#[trigger] self@[k], rhs@[k])),
                forall|k: int| 0 <= k < i ==> f.ensures((self@[k], rhs@[k]), #[trigger] out@[k]),
            decreases S - i,
        {
            assert(f.requires((self@[i as int], rhs@[i as int])));
            let value = f(self.data[i], rhs.data[i]);
            let ghost before = out;
            out.data[i] = value;
            assert(out@ =~= before@.update(i as int, value));
            i += 1;
        }
        out
    }
}

impl<T, const N: usize, const S: usize> vstd::std_specs::core::IndexSpecImpl<usize> for Matrix<T, N, S> {
    open spec fn index_req(&self, index: &usize) -> bool {
        Self::is_square() && *index < N
    }
}

impl<T, const N: usize, const S: usize> Index<usize> for Matrix<T, N, S> {
    type Output = [T];

    /// Row `row`, which the matrix must have.
    fn index(&self, row: usize) -> (elements: &[T])
        ensures
            elements@ == row_of(self@, N as int, row as int),
    {
        proof {
            self.lemma_view();
            lemma_offset(N as int, row as int, 0);
        }
        let start = row * N;
        vstd::slice::slice_subrange(self.data.as_slice(), start, start + N)
    }
}

impl<T, const N: usize, const S: usize> IndexMut<usize> for Matrix<T, N, S> {
    /// Row `row`, which the matrix must have, to be written in place: the
    /// other rows stay as they are.
    fn index_mut(&mut self, row: usize) -> (elements: &mut [T])
        requires
            Self::is_square(),
            row < N,
        ensures
            elements@ == row_of(old(self)@, N as int, row as int),
            final(self)@ == old(self)@.subrange(0, row * N) + final(elements)@
                + old(self)@.subrange(row * N + N, S as int),
    {
        proof {
            Self::lemma_views();
            lemma_offset(N as int, row as int, 0);
        }
        let start = row * N;
        let whole: &mut [T] = &mut self.data;
        let (_, tail) = whole.split_at_mut(start);
        let (elements, _) = tail.split_at_mut(N);
        elements
    }
}

} // verus!
