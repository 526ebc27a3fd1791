//! The identity matrix.
use crate::matrix::{lemma_offset, offset, Matrix};
use crate::scalar::Integral;
use vstd::prelude::*;

verus! {

impl<T: Copy, const N: usize, const S: usize> Matrix<T, N, S> {
    /// Whether the matrix has `one` on its diagonal and `zero` everywhere
    /// else.
    pub open spec fn is_identity_of(&self, zero: T, one: T) -> bool {
        forall|r: int, c: int|
            0 <= r < N && 0 <= c < N ==> #[trigger] self.at(r, c) == (if r == c {
                one
            } else {
                zero
            })
    }

    /// The matrix with `one` on its diagonal and `zero` everywhere else: the
    /// identity matrix of an element type whose identities are these two.
    pub fn identity_from(zero: T, one: T) -> (m: Self)
        requires
            Self::is_square(),
        ensures
            m.is_identity_of(zero, one),
    {
        let mut m = Self::from_2d_array([[zero;N];N]);
        let mut i: usize = 0;
        while i < N
            invariant
                i <= N,
                Self::is_square(),
                forall|r: int, c: int|
                    0 <= r < N && 0 <= c < N ==> #[trigger] m.at(r, c) == (if r == c && r < i {
                        one
                    } else {
                        zero
                    }),
            decreases N - i,
        {
            let ghost before = m;
            m.set(i, i, one);
            assert forall|r: int, c: int| 0 <= r < N && 0 <= c < N implies #[trigger] m.at(r, c)
                == (if r == c && r < i + 1 {
                one
            } else {
                zero
            }) by {
                lemma_offset(N as int, i as int, i as int);
                lemma_offset(N as int, r, c);
                assert(before.at(r, c) == (if r == c && r < i {
                    one
                } else {
                    zero
                }));
                if r != i || c != i {
                    assert(offset(N as int, r, c) != offset(N as int, i as int, i as int));
                }
            }
            i += 1;
        }
        m
    }
}

impl<T: Integral, const N: usize, const S: usize> Matrix<T, N, S> {
    /// Whether the matrix is the identity matrix: 1 on the diagonal and 0
    /// everywhere else.
    pub open spec fn is_identity(&self) -> bool {
        self.is_identity_of(T::from_int(0), T::from_int(1))
    }

    /// The identity matrix.
    pub fn identity() -> (m: Self)
        requires
            Self::is_square(),
        ensures
            m.is_identity(),
    {
        Self::identity_from(T::zero(), T::one())
    }
}

} // verus!
