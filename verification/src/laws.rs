//! Laws of the vectors and matrices.
//!
//! The algebraic laws are stated for every integer element type and over the
//! specifications of the operators themselves. An operation on fixed-width
//! integers is defined only where no step of it overflows, so each law asks
//! that the operations it speaks of are defined, and no more.
use crate::dot::{dot_fits, dot_int};
use crate::elementwise::{seq_add, seq_neg, seq_neg_req};
use crate::matrix::mat_mul_mat::{lemma_mat_mul_ints, mat_mul};
use crate::matrix::mat_mul_vec::{lemma_mat_vec_ints, mat_vec, mat_vec_fits, mat_vec_int};
use crate::matrix::{lemma_offset, offset, row_of, Matrix};
use crate::scalar::{ints, lemma_ints_injective, Integral};
use crate::sums::lemma_mat_mul_int_associative;
use crate::vector::vector_ops::{cross3, cross3_req, minor, minor_req};
use crate::vector::{quarter_turn, quarter_turn_req, Vector, Vector2, Vector3};
use vstd::prelude::*;
use vstd::std_specs::ops::{AddSpec, MulSpec, NegSpec, SubSpec};

verus! {

/// `get` reads the slice that `as_slice` shows: at an index below the
/// dimension it gives the element of the slice there, and at any other index
/// nothing.
pub proof fn lemma_get_reads_slice<T: Copy, const D: usize>(v: Vector<T, D>, index: usize)
    ensures
        index < D ==> v.get(index) == Some(v.as_slice()@[index as int]),
        index >= D ==> v.get(index) == None::<T>,
{
    v.lemma_as_slice();
}

/// Vector addition is commutative: where `a + b` is defined, so is `b + a`,
/// and the two are equal.
pub proof fn lemma_vector_add_commutative<T: Integral, const D: usize>(
    a: Vector<T, D>,
    b: Vector<T, D>,
)
    requires
        a.add_req(b),
    ensures
        b.add_req(a),
        a.add_spec(b) == b.add_spec(a),
{
    assert forall|i: int| 0 <= i < D implies (#[trigger] b@[i]).add_req(a@[i]) && a@[i].add_spec(
        b@[i],
    ) == b@[i].add_spec(a@[i]) by {
        assert(a@[i].add_req(b@[i]));
        T::lemma_add(a@[i], b@[i]);
        T::lemma_add(b@[i], a@[i]);
    }
    assert(seq_add(a@, b@) =~= seq_add(b@, a@));
}

/// Vector addition is associative: where `(a + b) + c` and `b + c` are
/// defined, so is `a + (b + c)`, and it equals `(a + b) + c`.
pub proof fn lemma_vector_add_associative<T: Integral, const D: usize>(
    a: Vector<T, D>,
    b: Vector<T, D>,
    c: Vector<T, D>,
)
    requires
        a.add_req(b),
        a.add_spec(b).add_req(c),
        b.add_req(c),
    ensures
        a.add_req(b.add_spec(c)),
        a.add_spec(b).add_spec(c) == a.add_spec(b.add_spec(c)),
{
    let ab = a.add_spec(b);
    let bc = b.add_spec(c);
    Vector::<T, D>::lemma_of(seq_add(a@, b@));
    Vector::<T, D>::lemma_of(seq_add(b@, c@));
    assert forall|i: int| 0 <= i < D implies (#[trigger] a@[i]).add_req(bc@[i]) && ab@[i].add_spec(
        c@[i],
    ) == a@[i].add_spec(bc@[i]) by {
        assert(a@[i].add_req(b@[i]));
        assert(ab@[i].add_req(c@[i]));
        assert(b@[i].add_req(c@[i]));
        T::lemma_add(a@[i], b@[i]);
        T::lemma_add(b@[i], c@[i]);
        T::lemma_add(ab@[i], c@[i]);
        T::lemma_add(a@[i], bc@[i]);
        T::lemma_range(a@[i], a@[i].as_int() + b@[i].as_int());
        T::lemma_range(a@[i], b@[i].as_int() + c@[i].as_int());
    }
    assert(seq_add(ab@, c@) =~= seq_add(a@, bc@));
}

/// A quarter turn about a pivot followed by the opposite quarter turn about
/// the same pivot is the identity: where the first turn is defined, so is the
/// turn back, and it gives the point that was turned.
pub proof fn lemma_quarter_turns_cancel<T: Integral>(point: Vector2<T>, pivot: Vector2<T>, cw: bool)
    requires
        quarter_turn_req(point@, pivot@, cw),
    ensures
        quarter_turn_req(quarter_turn(point@, pivot@, cw), pivot@, !cw),
        quarter_turn(quarter_turn(point@, pivot@, cw), pivot@, !cw) == point@,
{
    let p = point@;
    let q = pivot@;
    let x = p[0].sub_spec(q[0]);
    let y = p[1].sub_spec(q[1]);
    let turned = quarter_turn(p, q, cw);
    T::lemma_sub(p[0], q[0]);
    T::lemma_sub(p[1], q[1]);
    T::lemma_range(p[0], p[0].as_int() - q[0].as_int());
    T::lemma_range(p[1], p[1].as_int() - q[1].as_int());
    T::lemma_range(q[0], 0);
    T::lemma_range(q[1], 0);
    T::lemma_neg(x);
    T::lemma_neg(y);
    T::lemma_range(x, -x.as_int());
    T::lemma_range(y, -y.as_int());
    if cw {
        let back_y = x.neg_spec();
        T::lemma_add(y, q[0]);
        T::lemma_add(back_y, q[1]);
        T::lemma_range(y, y.as_int() + q[0].as_int());
        T::lemma_range(y, back_y.as_int() + q[1].as_int());
        // Turning back: the point is moved to the origin again, ...
        let x2 = turned[0].sub_spec(q[0]);
        let y2 = turned[1].sub_spec(q[1]);
        T::lemma_sub(turned[0], q[0]);
        T::lemma_sub(turned[1], q[1]);
        T::lemma_range(x2, turned[0].as_int() - q[0].as_int());
        T::lemma_range(y2, turned[1].as_int() - q[1].as_int());
        // ... sent from (x2, y2) to (-y2, x2), and moved back.
        T::lemma_neg(y2);
        T::lemma_range(y2, -y2.as_int());
        T::lemma_add(y2.neg_spec(), q[0]);
        T::lemma_add(x2, q[1]);
        T::lemma_range(x2, y2.neg_spec().as_int() + q[0].as_int());
        T::lemma_range(x2, x2.as_int() + q[1].as_int());
    } else {
        let back_x = y.neg_spec();
        T::lemma_add(back_x, q[0]);
        T::lemma_add(x, q[1]);
        T::lemma_range(y, back_x.as_int() + q[0].as_int());
        T::lemma_range(y, x.as_int() + q[1].as_int());
        let x2 = turned[0].sub_spec(q[0]);
        let y2 = turned[1].sub_spec(q[1]);
        T::lemma_sub(turned[0], q[0]);
        T::lemma_sub(turned[1], q[1]);
        T::lemma_range(x2, turned[0].as_int() - q[0].as_int());
        T::lemma_range(y2, turned[1].as_int() - q[1].as_int());
        // Sent from (x2, y2) to (y2, -x2), and moved back.
        T::lemma_neg(x2);
        T::lemma_range(x2, -x2.as_int());
        T::lemma_add(y2, q[0]);
        T::lemma_add(x2.neg_spec(), q[1]);
        T::lemma_range(x2, y2.as_int() + q[0].as_int());
        T::lemma_range(x2, x2.neg_spec().as_int() + q[1].as_int());
    }
    assert(quarter_turn(turned, q, !cw) =~= p);
}

proof fn lemma_minor_flips<T: Integral>(a: Seq<T>, b: Seq<T>, i: int, j: int)
    requires
        minor_req(b, a, i, j),
        minor(b, a, i, j).neg_req(),
    ensures
        minor_req(a, b, i, j),
        minor(a, b, i, j) == minor(b, a, i, j).neg_spec(),
{
    let (ai, aj) = (a[i].as_int(), a[j].as_int());
    let (bi, bj) = (b[i].as_int(), b[j].as_int());
    let ai_bj = ai * bj;
    let aj_bi = aj * bi;
    assert(bi * aj == aj * bi && bj * ai == ai * bj) by (nonlinear_arith);
    T::lemma_mul(b[i], a[j]);
    T::lemma_mul(b[j], a[i]);
    T::lemma_mul(a[i], b[j]);
    T::lemma_mul(a[j], b[i]);
    T::lemma_range(a[i], ai_bj);
    T::lemma_range(a[i], aj_bi);
    T::lemma_sub(b[i].mul_spec(a[j]), b[j].mul_spec(a[i]));
    T::lemma_sub(a[i].mul_spec(b[j]), a[j].mul_spec(b[i]));
    T::lemma_range(a[i], aj_bi - ai_bj);
    T::lemma_neg(minor(b, a, i, j));
    T::lemma_range(a[i], ai_bj - aj_bi);
}

/// The cross product is anti-commutative: where `b x a` and its negation are
/// defined, so is `a x b`, and it is the negation of `b x a`.
pub proof fn lemma_cross_anticommutative<T: Integral>(a: Vector3<T>, b: Vector3<T>)
    requires
        cross3_req(b@, a@),
        seq_neg_req(cross3(b@, a@)),
    ensures
        cross3_req(a@, b@),
        cross3(a@, b@) == seq_neg(cross3(b@, a@)),
{
    let flipped = cross3(b@, a@);
    assert(flipped[0].neg_req() && flipped[1].neg_req() && flipped[2].neg_req());
    lemma_minor_flips(a@, b@, 1, 2);
    lemma_minor_flips(a@, b@, 2, 0);
    lemma_minor_flips(a@, b@, 0, 1);
    assert(cross3(a@, b@) =~= seq_neg(flipped));
}

proof fn lemma_dot_int_unit(x: Seq<int>, y: Seq<int>, i: int, k: nat)
    requires
        0 <= i,
        forall|l: int| 0 <= l < k ==> #[trigger] x[l] == (if l == i {
            1int
        } else {
            0int
        }),
    ensures
        dot_int(x, y, k) == (if i < k {
            y[i]
        } else {
            0
        }),
    decreases k,
{
    if k > 0 {
        lemma_dot_int_unit(x, y, i, (k - 1) as nat);
        assert(x[k - 1] == (if k - 1 == i {
            1int
        } else {
            0int
        }));
    }
}

/// The identity matrix times a vector is that vector: the product is defined
/// for every vector, and equal to it.
pub proof fn lemma_identity_mul_vec<T: Integral, const N: usize, const S: usize>(
    m: Matrix<T, N, S>,
    v: Vector<T, N>,
)
    requires
        Matrix::<T, N, S>::is_square(),
        m.is_identity(),
    ensures
        m.mul_req(v),
        m.mul_spec(v) == v,
{
    let n = N as int;
    let zero = T::from_int(0);
    let a = ints(m@);
    let y = ints(v@);
    T::lemma_range(zero, 0);
    T::lemma_range(zero, 1);
    assert forall|i: int| 0 <= i < n implies dot_fits::<T>(#[trigger] row_of(a, n, i), y, n as nat)
        && dot_int(row_of(a, n, i), y, n as nat) == y[i] by {
        let x = row_of(a, n, i);
        lemma_offset(n, i, 0);
        assert forall|l: int| 0 <= l < n implies #[trigger] x[l] == (if l == i {
            1int
        } else {
            0int
        }) by {
            lemma_offset(n, i, l);
            assert(x[l] == m@[offset(n, i, l)].as_int());
            assert(m.at(i, l) == m@[offset(n, i, l)]);
        }
        assert forall|l: int| 0 <= l < n implies T::representable(#[trigger] (x[l] * y[l])) by {
            T::lemma_range(v@[l], 0);
            assert(y[l] == v@[l].as_int());
        }
        assert forall|k: nat| k <= n implies T::representable(#[trigger] dot_int(x, y, k)) by {
            lemma_dot_int_unit(x, y, i, k);
            T::lemma_range(v@[i], 0);
            assert(y[i] == v@[i].as_int());
        }
        lemma_dot_int_unit(x, y, i, n as nat);
    }
    assert(mat_vec_fits::<T>(a, n, y));
    lemma_mat_vec_ints::<T>(m@, n, v@);
    assert(mat_vec_int(a, n, y) =~= y);
    lemma_ints_injective(mat_vec(m@, n, v@, zero), v@);
    Vector::<T, N>::lemma_of(mat_vec(m@, n, v@, zero));
    Vector::<T, N>::lemma_view_injective(m.mul_spec(v), v);
}

/// The matrix product is associative: where both `(a b) c` and `a (b c)` are
/// defined, they are equal.
pub proof fn lemma_mat_mul_associative<T: Integral, const N: usize, const S: usize>(
    a: Matrix<T, N, S>,
    b: Matrix<T, N, S>,
    c: Matrix<T, N, S>,
)
    requires
        a.mul_req(b),
        a.mul_spec(b).mul_req(c),
        b.mul_req(c),
        a.mul_req(b.mul_spec(c)),
    ensures
        a.mul_spec(b).mul_spec(c) == a.mul_spec(b.mul_spec(c)),
{
    let n = N as int;
    let zero = T::from_int(0);
    let ab = a.mul_spec(b);
    let bc = b.mul_spec(c);
    Matrix::<T, N, S>::lemma_of(mat_mul(a@, b@, n, zero));
    Matrix::<T, N, S>::lemma_of(mat_mul(b@, c@, n, zero));
    Matrix::<T, N, S>::lemma_of(mat_mul(ab@, c@, n, zero));
    Matrix::<T, N, S>::lemma_of(mat_mul(a@, bc@, n, zero));
    lemma_mat_mul_ints::<T>(a@, b@, n);
    lemma_mat_mul_ints::<T>(b@, c@, n);
    lemma_mat_mul_ints::<T>(ab@, c@, n);
    lemma_mat_mul_ints::<T>(a@, bc@, n);
    lemma_mat_mul_int_associative(ints(a@), ints(b@), ints(c@), n);
    lemma_ints_injective(ab.mul_spec(c)@, a.mul_spec(bc)@);
    Matrix::<T, N, S>::lemma_view_injective(ab.mul_spec(c), a.mul_spec(bc));
}

} // verus!
