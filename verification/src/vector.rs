//! Vectors of fixed dimension.
use crate::elementwise::{
    array_of, lemma_array_of, seq_add, seq_add_req, seq_div, seq_div_req, seq_neg, seq_neg_req,
    seq_scale, seq_scale_req, seq_sub, seq_sub_req,
};
use crate::error::DimensionMismatch;
use std::ops::{Add, AddAssign, Div, Index, IndexMut, Mul, Neg, Sub, SubAssign};
use vstd::prelude::*;
use vstd::std_specs::cmp::PartialEqSpec;
use vstd::std_specs::ops::{AddSpec, DivSpec, MulSpec, NegSpec, SubSpec};

pub mod vector_ops;

verus! {

pub type Vector2<T> = Vector<T, 2>;

pub type Vector3<T> = Vector<T, 3>;

pub type Vector4<T> = Vector<T, 4>;

pub type Vector2i32 = Vector2<i32>;

pub type Vector2i64 = Vector2<i64>;

pub type Vector3i32 = Vector3<i32>;

pub type Vector3i64 = Vector3<i64>;

pub type Vector4i32 = Vector4<i32>;

pub type Vector4i64 = Vector4<i64>;

/// An ordered tuple of `D` elements. Its view is the sequence of the
/// components, in axis order.
#[derive(Debug, Clone, Copy, PartialEq, Eq, Hash)]
pub struct Vector<T, const D: usize> {
    data: [T; D],
}

impl<T, const D: usize> View for Vector<T, D> {
    type V = Seq<T>;

    open spec fn view(&self) -> Seq<T> {
        Seq::new(D as nat, |i: int| self.component(i))
    }
}

impl<T, const D: usize> Vector<T, D> {
    /// The component at `i`.
    pub closed spec fn component(&self, i: int) -> T {
        self.data@[i]
    }

    /// The vector whose components are those of `s`; meaningful where `s` has
    /// length `D` (see [`Vector::lemma_of`]).
    pub closed spec fn of(s: Seq<T>) -> Self {
        Vector { data: array_of::<T, D>(s) }
    }

    /// `Vector::of(s)` has the components `s`.
    pub proof fn lemma_of(s: Seq<T>)
        requires
            s.len() == D,
        ensures
            Self::of(s)@ == s,
    {
        lemma_array_of::<T, D>(s);
        assert(Self::of(s)@ =~= s);
    }

    /// Vectors with the same components are equal.
    pub proof fn lemma_view_injective(a: Self, b: Self)
        requires
            a@ == b@,
        ensures
            a == b,
    {
        a.lemma_view();
        b.lemma_view();
        assert(a.data =~= b.data);
    }

    proof fn lemma_view(&self)
        ensures
            self@ == self.data@,
    {
        assert(self@ =~= self.data@);
    }

    proof fn lemma_views()
        ensures
            forall|v: Self| #[trigger] v@ == v.data@,
    {
        assert forall|v: Self| #[trigger] v@ == v.data@ by {
            v.lemma_view();
        }
    }
}

impl<T> Vector<T, 2> {
    /// The vector `(x, y)`.
    #[inline]
    pub fn new(x: T, y: T) -> (v: Self)
        ensures
            v@ == seq![x, y],
    {
        let v = Vector { data: [x, y] };
        assert(v@ =~= seq![x, y]);
        v
    }
}

impl<T> Vector<T, 3> {
    /// The vector `(x, y, z)`.
    #[inline]
    pub fn new(x: T, y: T, z: T) -> (v: Self)
        ensures
            v@ == seq![x, y, z],
    {
        let v = Vector { data: [x, y, z] };
        assert(v@ =~= seq![x, y, z]);
        v
    }
}

impl<T> Vector<T, 4> {
    /// The vector `(x, y, z, w)`.
    #[inline]
    pub fn new(x: T, y: T, z: T, w: T) -> (v: Self)
        ensures
            v@ == seq![x, y, z, w],
    {
        let v = Vector { data: [x, y, z, w] };
        assert(v@ =~= seq![x, y, z, w]);
        v
    }
}

impl<T: Copy, const D: usize> Vector<T, D> {
    /// The vector whose components are the elements of the slice, which must
    /// be exactly `D`; any other length is a dimension mismatch.
    pub fn from_slice(elements: &[T]) -> (built: Result<Self, DimensionMismatch>)
        requires
            0 < D,
        ensures
            elements@.len() == D ==> built is Ok && built->Ok_0@ == elements@,
            elements@.len() != D ==> built == Err::<Self, DimensionMismatch>(
                DimensionMismatch { expected: D, found: elements@.len() as usize },
            ),
    {
        if elements.len() != D {
            return Err(DimensionMismatch { expected: D, found: elements.len() });
        }
        let mut data: [T; D] = [elements[0];D];
        let mut i: usize = 0;
        while i < D
            invariant
                i <= D,
                elements@.len() == D,
                forall|k: int| 0 <= k < i ==> data@[k] == elements@[k],
            decreases D - i,
        {
            data[i] = elements[i];
            i += 1;
        }
        let v = Vector { data };
        assert(v@ =~= elements@);
        Ok(v)
    }

    /// What [`Vector::get`] returns.
    pub open spec fn spec_get(&self, index: usize) -> Option<T> {
        if index < D {
            Some(self@[index as int])
        } else {
            None
        }
    }

    /// What [`Vector::as_slice`] returns.
    pub closed spec fn spec_as_slice(&self) -> &[T] {
        vstd::array::spec_array_as_slice(&self.data)
    }

    /// The slice of a vector holds its components.
    pub proof fn lemma_as_slice(&self)
        ensures
            self.spec_as_slice()@ == self@,
    {
        self.lemma_view();
    }

    /// The component at `index`, or `None` where the vector has no such
    /// component.
    #[verifier::when_used_as_spec(spec_get)]
    pub fn get(&self, index: usize) -> (found: Option<T>)
        ensures
            found == (if index < D {
                Some(self@[index as int])
            } else {
                None
            }),
    {
        if index < D {
            Some(self.data[index])
        } else {
            None
        }
    }

    /// A reference through which the component at `index` can be written, or
    /// `None` where the vector has no such component.
    pub fn get_mut(&mut self, index: usize) -> (found: Option<&mut T>)
        ensures
            index >= D ==> found is None && *final(self) == *old(self),
            index < D ==> found is Some && *found->Some_0 == old(self)@[index as int],
            index < D ==> final(self)@ == old(self)@.update(
                index as int,
                *final(found->Some_0),
            ),
    {
        if index < D {
            proof {
                Self::lemma_views();
            }
            Some(&mut self.data[index])
        } else {
            None
        }
    }

    /// Overwrites the component at `index`.
    pub fn set(&mut self, index: usize, value: T)
        requires
            index < D,
        ensures
            final(self)@ == old(self)@.update(index as int, value),
    {
        self.data[index] = value;
        assert(self@ =~= old(self)@.update(index as int, value));
    }

    /// The number of components.
    pub fn dimension(&self) -> (d: usize)
        ensures
            d == D,
    {
        D
    }

    /// The components, in order.
    #[verifier::when_used_as_spec(spec_as_slice)]
    pub fn as_slice(&self) -> (components: &[T])
        ensures
            components == self.spec_as_slice(),
            components@ == self@,
    {
        proof {
            self.lemma_view();
        }
        let components: &[T] = &self.data;
        components
    }

    /// Applies `f` to each pair of components of `self` and `rhs`.
    fn compute_binary<F>(&self, rhs: &Self, f: F) -> (out: Self) where F: Fn(T, T) -> T
        requires
            forall|i: int| 0 <= i < D ==> f.requires((#[trigger] self@[i], rhs@[i])),
        ensures
            forall|i: int| 0 <= i < D ==> f.ensures((self@[i], rhs@[i]), #[trigger] out@[i]),
    {
        let mut out = *self;
        let mut i: usize = 0;
        while i < D
            invariant
                i <= D,
                forall|k: int| 0 <= k < D ==> f.requires((#[trigger] self@[k], rhs@[k])),
                forall|k: int| 0 <= k < i ==> f.ensures((self@[k], rhs@[k]), #[trigger] out@[k]),
            decreases D - i,
        {
            assert(f.requires((self@[i as int], rhs@[i as int])));
            let value = f(self.data[i], rhs.data[i]);
            let ghost before = out;
            out.data[i] = value;
            assert(out@ =~= before@.update(i as int, value));
            i += 1;
        }
        out
    }

    /// Applies `f` to each component of `self`.
    fn compute_unary<F>(&self, f: F) -> (out: Self) where F: Fn(T) -> T
        requires
            forall|i: int| 0 <= i < D ==> f.requires((#[trigger] self@[i],)),
        ensures
            forall|i: int| 0 <= i < D ==> f.ensures((self@[i],), #[trigger] out@[i]),
    {
        let mut out = *self;
        let mut i: usize = 0;
        while i < D
            invariant
                i <= D,
                forall|k: int| 0 <= k < D ==> f.requires((#[trigger] self@[k],)),
                forall|k: int| 0 <= k < i ==> f.ensures((self@[k],), #[trigger] out@[k]),
            decreases D - i,
        {
            assert(f.requires((self@[i as int],)));
            let value = f(self.data[i]);
            let ghost before = out;
            out.data[i] = value;
            assert(out@ =~= before@.update(i as int, value));
            i += 1;
        }
        out
    }
}

impl<T, const D: usize> vstd::std_specs::core::IndexSpecImpl<usize> for Vector<T, D> {
    open spec fn index_req(&self, index: &usize) -> bool {
        *index < D
    }
}

impl<T, const D: usize> Index<usize> for Vector<T, D> {
    type Output = T;

    /// The component at `index`, which the vector must have.
    fn index(&self, index: usize) -> (component: &T)
        ensures
            *component == self@[index as int],
    {
        &self.data[index]
    }
}

impl<T, const D: usize> IndexMut<usize> for Vector<T, D> {
    /// A reference through which the component at `index`, which the vector
    /// must have, can be written.
    fn index_mut(&mut self, index: usize) -> (component: &mut T)
        requires
            index < D,
        ensures
            *component == old(self)@[index as int],
            final(self)@ == old(self)@.update(index as int, *final(component)),
    {
        proof {
            Self::lemma_views();
        }
        &mut self.data[index]
    }
}

impl<T: Add<Output = T> + Copy, const D: usize> vstd::std_specs::ops::AddSpecImpl for Vector<T, D> {
    open spec fn obeys_add_spec() -> bool {
        T::obeys_add_spec()
    }

    open spec fn add_req(self, rhs: Self) -> bool {
        seq_add_req(self@, rhs@)
    }

    open spec fn add_spec(self, rhs: Self) -> Self {
        Self::of(seq_add(self@, rhs@))
    }
}

impl<T: Add<Output = T> + Copy, const D: usize> Add for Vector<T, D> {
    type Output = Self;

    /// The component-wise sum.
    fn add(self, rhs: Self) -> (sum: Self)
        ensures
            T::obeys_add_spec() ==> sum@ == seq_add(self@, rhs@),
    {
        let plus = |a: T, b: T| -> (c: T)
            requires
                a.add_req(b),
            ensures
                T::obeys_add_spec() ==> c == a.add_spec(b),
            {
                a + b
            };
        let sum = self.compute_binary(&rhs, plus);
        proof {
            if T::obeys_add_spec() {
                assert(sum@ =~= seq_add(self@, rhs@));
                Self::lemma_of(seq_add(self@, rhs@));
                Self::lemma_view_injective(sum, Self::of(seq_add(self@, rhs@)));
            }
        }
        sum
    }
}

impl<T: Sub<Output = T> + Copy, const D: usize> vstd::std_specs::ops::SubSpecImpl for Vector<T, D> {
    open spec fn obeys_sub_spec() -> bool {
        T::obeys_sub_spec()
    }

    open spec fn sub_req(self, rhs: Self) -> bool {
        seq_sub_req(self@, rhs@)
    }

    open spec fn sub_spec(self, rhs: Self) -> Self {
        Self::of(seq_sub(self@, rhs@))
    }
}

impl<T: Sub<Output = T> + Copy, const D: usize> Sub for Vector<T, D> {
    type Output = Self;

    /// The component-wise difference.
    fn sub(self, rhs: Self) -> (difference: Self)
        ensures
            T::obeys_sub_spec() ==> difference@ == seq_sub(self@, rhs@),
    {
        let minus = |a: T, b: T| -> (c: T)
            requires
                a.sub_req(b),
            ensures
                T::obeys_sub_spec() ==> c == a.sub_spec(b),
            {
                a - b
            };
        let difference = self.compute_binary(&rhs, minus);
        proof {
            if T::obeys_sub_spec() {
                assert(difference@ =~= seq_sub(self@, rhs@));
                Self::lemma_of(seq_sub(self@, rhs@));
                Self::lemma_view_injective(difference, Self::of(seq_sub(self@, rhs@)));
            }
        }
        difference
    }
}

impl<T: Add<Output = T> + Copy, const D: usize> AddAssign<&Vector<T, D>> for Vector<T, D> {
    /// Adds `rhs` to `self`, component by component.
    fn add_assign(&mut self, rhs: &Self)
        requires
            seq_add_req(old(self)@, rhs@),
        ensures
            T::obeys_add_spec() ==> final(self)@ == seq_add(old(self)@, rhs@),
    {
        let mut i: usize = 0;
        while i < D
            invariant
                i <= D,
                seq_add_req(old(self)@, rhs@),
                forall|k: int| i <= k < D ==> self@[k] == old(self)@[k],
                T::obeys_add_spec() ==> forall|k: int|
                    0 <= k < i ==> self@[k] == (#[trigger] old(self)@[k]).add_spec(rhs@[k]),
            decreases D - i,
        {
            assert(old(self)@[i as int].add_req(rhs@[i as int]));
            let ghost before = *self;
            self.data[i] = self.data[i] + rhs.data[i];
            assert(self@ =~= before@.update(i as int, self@[i as int]));
            i += 1;
        }
        assert(T::obeys_add_spec() ==> self@ =~= seq_add(old(self)@, rhs@));
    }
}

impl<T: Sub<Output = T> + Copy, const D: usize> SubAssign<&Vector<T, D>> for Vector<T, D> {
    /// Subtracts `rhs` from `self`, component by component.
    fn sub_assign(&mut self, rhs: &Self)
        requires
            seq_sub_req(old(self)@, rhs@),
        ensures
            T::obeys_sub_spec() ==> final(self)@ == seq_sub(old(self)@, rhs@),
    {
        let mut i: usize = 0;
        while i < D
            invariant
                i <= D,
                seq_sub_req(old(self)@, rhs@),
                forall|k: int| i <= k < D ==> self@[k] == old(self)@[k],
                T::obeys_sub_spec() ==> forall|k: int|
                    0 <= k < i ==> self@[k] == (#[trigger] old(self)@[k]).sub_spec(rhs@[k]),
            decreases D - i,
        {
            assert(old(self)@[i as int].sub_req(rhs@[i as int]));
            let ghost before = *self;
            self.data[i] = self.data[i] - rhs.data[i];
            assert(self@ =~= before@.update(i as int, self@[i as int]));
            i += 1;
        }
        assert(T::obeys_sub_spec() ==> self@ =~= seq_sub(old(self)@, rhs@));
    }
}

impl<T: Mul<Output = T> + Copy, const D: usize> vstd::std_specs::ops::MulSpecImpl<T> for Vector<T, D> {
    open spec fn obeys_mul_spec() -> bool {
        T::obeys_mul_spec()
    }

    open spec fn mul_req(self, scalar: T) -> bool {
        seq_scale_req(self@, scalar)
    }

    open spec fn mul_spec(self, scalar: T) -> Self {
        Self::of(seq_scale(self@, scalar))
    }
}

impl<T: Mul<Output = T> + Copy, const D: usize> Mul<T> for Vector<T, D> {
    type Output = Self;

    /// Every component times `scalar`.
    fn mul(self, scalar: T) -> (scaled: Self)
        ensures
            T::obeys_mul_spec() ==> scaled@ == seq_scale(self@, scalar),
    {
        let times = |a: T| -> (c: T)
            requires
                a.mul_req(scalar),
            ensures
                T::obeys_mul_spec() ==> c == a.mul_spec(scalar),
            {
                a * scalar
            };
        let scaled = self.compute_unary(times);
        proof {
            if T::obeys_mul_spec() {
                assert(scaled@ =~= seq_scale(self@, scalar));
                Self::lemma_of(seq_scale(self@, scalar));
                Self::lemma_view_injective(scaled, Self::of(seq_scale(self@, scalar)));
            }
        }
        scaled
    }
}

impl<T: Neg<Output = T> + Copy, const D: usize> vstd::std_specs::ops::NegSpecImpl for Vector<T, D> {
    open spec fn obeys_neg_spec() -> bool {
        T::obeys_neg_spec()
    }

    open spec fn neg_req(self) -> bool {
        seq_neg_req(self@)
    }

    open spec fn neg_spec(self) -> Self {
        Self::of(seq_neg(self@))
    }
}

impl<T: Neg<Output = T> + Copy, const D: usize> Neg for Vector<T, D> {
    type Output = Self;

    /// Every component with its sign inverted.
    fn neg(self) -> (negated: Self)
        ensures
            T::obeys_neg_spec() ==> negated@ == seq_neg(self@),
    {
        let minus = |a: T| -> (c: T)
            requires
                a.neg_req(),
            ensures
                T::obeys_neg_spec() ==> c == a.neg_spec(),
            {
                a.neg()
            };
        let negated = self.compute_unary(minus);
        proof {
            if T::obeys_neg_spec() {
                assert(negated@ =~= seq_neg(self@));
                Self::lemma_of(seq_neg(self@));
                Self::lemma_view_injective(negated, Self::of(seq_neg(self@)));
            }
        }
        negated
    }
}

impl<T: Div<Output = T> + PartialEq + Copy, const D: usize> Vector<T, D> {
    /// The vector scaled to length 1, given its length: every component
    /// divided by `length`, or the vector itself where `length` is `zero`, so
    /// that nothing is divided by zero.
    pub fn normalize_with_length(&self, length: T, zero: T) -> (unit: Self)
        requires
            (T::obeys_eq_spec() && length.eq_spec(&zero)) || seq_div_req(self@, length),
        ensures
            T::obeys_eq_spec() && length.eq_spec(&zero) ==> unit == *self,
            T::obeys_eq_spec() && !length.eq_spec(&zero) && T::obeys_div_spec() ==> unit@
                == seq_div(self@, length),
            unit == *self || (T::obeys_div_spec() ==> unit@ == seq_div(self@, length)),
    {
        if length == zero {
            *self
        } else {
            let over = |a: T| -> (c: T)
                requires
                    a.div_req(length),
                ensures
                    T::obeys_div_spec() ==> c == a.div_spec(length),
                {
                    a / length
                };
            let unit = self.compute_unary(over);
            assert(T::obeys_div_spec() ==> unit@ =~= seq_div(self@, length));
            unit
        }
    }
}

/// Whether every step of a quarter turn of `point` about `pivot` is defined.
pub open spec fn quarter_turn_req<T: Add<Output = T> + Sub<Output = T> + Neg<Output = T>>(
    point: Seq<T>,
    pivot: Seq<T>,
    cw: bool,
) -> bool {
    let x = point[0].sub_spec(pivot[0]);
    let y = point[1].sub_spec(pivot[1]);
    &&& T::obeys_add_spec() && T::obeys_sub_spec() && T::obeys_neg_spec()
    &&& point[0].sub_req(pivot[0])
    &&& point[1].sub_req(pivot[1])
    &&& if cw {
        x.neg_req() && y.add_req(pivot[0]) && x.neg_spec().add_req(pivot[1])
    } else {
        y.neg_req() && y.neg_spec().add_req(pivot[0]) && x.add_req(pivot[1])
    }
}

/// `point` turned by a quarter about `pivot`: moved so that the pivot is the
/// origin, sent from `(x, y)` to `(y, -x)` where `cw` and to `(-y, x)` where
/// not, and moved back.
pub open spec fn quarter_turn<T: Add<Output = T> + Sub<Output = T> + Neg<Output = T>>(
    point: Seq<T>,
    pivot: Seq<T>,
    cw: bool,
) -> Seq<T> {
    let x = point[0].sub_spec(pivot[0]);
    let y = point[1].sub_spec(pivot[1]);
    if cw {
        seq![y.add_spec(pivot[0]), x.neg_spec().add_spec(pivot[1])]
    } else {
        seq![y.neg_spec().add_spec(pivot[0]), x.add_spec(pivot[1])]
    }
}

impl<T: Add<Output = T> + Sub<Output = T> + Neg<Output = T> + Copy> Vector<T, 2> {
    /// The point turned clockwise by a quarter about `pivot`, on a screen
    /// where y grows downward.
    pub fn rotate_90_cw(&self, pivot: Vector2<T>) -> (turned: Self)
        requires
            quarter_turn_req(self@, pivot@, true),
        ensures
            turned@ == quarter_turn(self@, pivot@, true),
    {
        self.rotate_90(pivot, true)
    }

    /// The point turned counter-clockwise by a quarter about `pivot`, on a
    /// screen where y grows downward.
    pub fn rotate_90_ccw(&self, pivot: Vector2<T>) -> (turned: Self)
        requires
            quarter_turn_req(self@, pivot@, false),
        ensures
            turned@ == quarter_turn(self@, pivot@, false),
    {
        self.rotate_90(pivot, false)
    }

    /// [`Vector::rotate_90_cw`] under its short name.
    pub fn rotat_90_cw(&self, pivot: Vector2<T>) -> (turned: Self)
        requires
            quarter_turn_req(self@, pivot@, true),
        ensures
            turned@ == quarter_turn(self@, pivot@, true),
    {
        self.rotate_90(pivot, true)
    }

    /// [`Vector::rotate_90_ccw`] under its short name.
    pub fn rotat_90_ccw(&self, pivot: Vector2<T>) -> (turned: Self)
        requires
            quarter_turn_req(self@, pivot@, false),
        ensures
            turned@ == quarter_turn(self@, pivot@, false),
    {
        self.rotate_90(pivot, false)
    }

    fn rotate_90(&self, pivot: Vector2<T>, cw: bool) -> (turned: Self)
        requires
            quarter_turn_req(self@, pivot@, cw),
        ensures
            turned@ == quarter_turn(self@, pivot@, cw),
    {
        proof {
            self.lemma_view();
            pivot.lemma_view();
        }
        let translated_x = self.data[0] - pivot.data[0];
        let translated_y = self.data[1] - pivot.data[1];
        let rotated_x: T;
        let rotated_y: T;
        if cw {
            rotated_x = translated_y;
            rotated_y = translated_x.neg();
        } else {
            rotated_x = translated_y.neg();
            rotated_y = translated_x;
        }
        Vector2::new(rotated_x + pivot.data[0], rotated_y + pivot.data[1])
    }
}

} // verus!
