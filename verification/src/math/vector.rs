//! Fixed-size integer vector: the element count is a compile-time parameter,
//! so operands of different lengths cannot even be written down.

use vstd::prelude::*;

use crate::math::utils::add_int;
use crate::math::utils::div_int;
use crate::math::utils::dot_int;
use crate::math::utils::mul_int;
use crate::math::utils::neg_int;
use crate::math::utils::scale_div_int;
use crate::math::utils::scale_int;
use crate::math::utils::sub_int;
use crate::math::utils::fits_i32;
use crate::math::utils::tdiv;
use crate::math::utils::to_ints;

verus! {

/// The cross product of two three-component vectors, as mathematical
/// integers.
pub open spec fn cross_int(a: Seq<int>, b: Seq<int>) -> Seq<int> {
    seq![
        a[1] * b[2] - a[2] * b[1],
        -(a[0] * b[2] - a[2] * b[0]),
        a[0] * b[1] - a[1] * b[0],
    ]
}

/// A vector of `S` integers, stored in a stack array. Its view is the
/// sequence of its components as mathematical integers.
#[derive(Debug, Clone, Copy)]
pub struct Vector<const S: usize> {
    pub e: [i32; S],
}

impl<const S: usize> View for Vector<S> {
    type V = Seq<int>;

    open spec fn view(&self) -> Seq<int> {
        to_ints(self.e@)
    }
}

impl<const S: usize> Vector<S> {
    /// Wrap an element array of the right length.
    pub fn from_slice(e: [i32; S]) -> (r: Self)
        ensures
            r@ == to_ints(e@),
    {
        Self { e }
    }

    /// The number of components, the compile-time parameter `S`.
    pub fn size(&self) -> (r: usize)
        ensures
            r == S,
    {
        S
    }

    /// The vector with every component zero.
    pub fn zero() -> (r: Self)
        ensures
            forall|k: int| 0 <= k < S ==> r@[k] == 0,
    {
        Self { e: [0; S] }
    }

    /// Dot product: the sum of the pairwise products of the components.
    pub fn dot(&self, other: &Self) -> (r: i32)
        requires
            forall|k: int| 0 <= k < S ==> fits_i32(self@[k] * other@[k]),
            forall|k: int| 0 <= k <= S ==> fits_i32(dot_int(self@, other@, k)),
        ensures
            r == dot_int(self@, other@, S as int),
    {
        let mut result: i32 = 0;
        let mut i: usize = 0;
        while i < S
            invariant
                i <= S,
                self@.len() == S,
                other@.len() == S,
                result == dot_int(self@, other@, i as int),
                forall|k: int| 0 <= k < S ==> fits_i32(self@[k] * other@[k]),
                forall|k: int| 0 <= k <= S ==> fits_i32(dot_int(self@, other@, k)),
            decreases S - i,
        {
            assert(dot_int(self@, other@, i + 1) == dot_int(self@, other@, i as int) + self@[i as int]
                * other@[i as int]);
            result = result + self.e[i] * other.e[i];
            i = i + 1;
        }
        result
    }

    /// The squared length of the vector, `self.dot(self)`.
    pub fn length_squared(&self) -> (r: i32)
        requires
            forall|k: int| 0 <= k < S ==> fits_i32(self@[k] * self@[k]),
            forall|k: int| 0 <= k <= S ==> fits_i32(dot_int(self@, self@, k)),
        ensures
            r == dot_int(self@, self@, S as int),
    {
        self.dot(self)
    }

    /// True when the squared length is exactly one.
    pub fn is_unit(&self) -> (r: bool)
        requires
            forall|k: int| 0 <= k < S ==> fits_i32(self@[k] * self@[k]),
            forall|k: int| 0 <= k <= S ==> fits_i32(dot_int(self@, self@, k)),
        ensures
            r == (dot_int(self@, self@, S as int) == 1),
    {
        self.length_squared() == 1
    }
}

impl Vector<2> {
    pub fn new(x: i32, y: i32) -> (r: Self)
        ensures
            r@ == seq![x as int, y as int],
    {
        Self { e: [x, y] }
    }
}

impl Vector<3> {
    pub fn new(x: i32, y: i32, z: i32) -> (r: Self)
        ensures
            r@ == seq![x as int, y as int, z as int],
    {
        Self { e: [x, y, z] }
    }

    /// Cross product, defined only for three-component vectors.
    pub fn cross(&self, other: &Self) -> (r: Self)
        requires
            fits_i32(self@[1] * other@[2]),
            fits_i32(self@[2] * other@[1]),
            fits_i32(self@[1] * other@[2] - self@[2] * other@[1]),
            fits_i32(self@[0] * other@[2]),
            fits_i32(self@[2] * other@[0]),
            fits_i32(self@[0] * other@[2] - self@[2] * other@[0]),
            fits_i32(-(self@[0] * other@[2] - self@[2] * other@[0])),
            fits_i32(self@[0] * other@[1]),
            fits_i32(self@[1] * other@[0]),
            fits_i32(self@[0] * other@[1] - self@[1] * other@[0]),
        ensures
            r@ == cross_int(self@, other@),
    {
        Self {
            e: [
                self.e[1] * other.e[2] - self.e[2] * other.e[1],
                -(self.e[0] * other.e[2] - self.e[2] * other.e[0]),
                self.e[0] * other.e[1] - self.e[1] * other.e[0],
            ],
        }
    }
}

impl Vector<4> {
    pub fn new(x: i32, y: i32, z: i32, w: i32) -> (r: Self)
        ensures
            r@ == seq![x as int, y as int, z as int, w as int],
    {
        Self { e: [x, y, z, w] }
    }
}

impl<const S: usize> core::ops::Add<Vector<S>> for Vector<S> {
    type Output = Vector<S>;

    fn add(self, other: Vector<S>) -> (r: Vector<S>)
        ensures
            r@ == add_int(self@, other@),
    {
        let mut e: [i32; S] = [0; S];
        let mut i: usize = 0;
        while i < S
            invariant
                i <= S,
                self@.len() == S,
                other@.len() == S,
                e@.len() == S,
                forall|k: int| 0 <= k < S ==> fits_i32(self@[k] + other@[k]),
                forall|k: int| 0 <= k < i ==> e@[k] == self@[k] + other@[k],
            decreases S - i,
        {
            assert(self@[i as int] == self.e@[i as int]);
            assert(other@[i as int] == other.e@[i as int]);
            e[i] = self.e[i] + other.e[i];
            i = i + 1;
        }
        assert(to_ints(e@) =~= add_int(self@, other@));
        Vector { e }
    }
}

impl<const S: usize> vstd::std_specs::ops::AddSpecImpl<Vector<S>> for Vector<S> {
    /// An array-backed value cannot be built from its view in spec code, so
    /// the result is not named here; the contract stands as `ensures` clauses
    /// on the operator implementation instead.
    open spec fn obeys_add_spec() -> bool {
        false
    }

    open spec fn add_req(self, rhs: Vector<S>) -> bool {
        forall|k: int| 0 <= k < S ==> fits_i32(self@[k] + rhs@[k])
    }

    open spec fn add_spec(self, rhs: Vector<S>) -> Vector<S> {
        self
    }
}

impl<const S: usize> core::ops::Sub<Vector<S>> for Vector<S> {
    type Output = Vector<S>;

    fn sub(self, other: Vector<S>) -> (r: Vector<S>)
        ensures
            r@ == sub_int(self@, other@),
    {
        let mut e: [i32; S] = [0; S];
        let mut i: usize = 0;
        while i < S
            invariant
                i <= S,
                self@.len() == S,
                other@.len() == S,
                e@.len() == S,
                forall|k: int| 0 <= k < S ==> fits_i32(self@[k] - other@[k]),
                forall|k: int| 0 <= k < i ==> e@[k] == self@[k] - other@[k],
            decreases S - i,
        {
            assert(self@[i as int] == self.e@[i as int]);
            assert(other@[i as int] == other.e@[i as int]);
            e[i] = self.e[i] - other.e[i];
            i = i + 1;
        }
        assert(to_ints(e@) =~= sub_int(self@, other@));
        Vector { e }
    }
}

impl<const S: usize> vstd::std_specs::ops::SubSpecImpl<Vector<S>> for Vector<S> {
    /// An array-backed value cannot be built from its view in spec code, so
    /// the result is not named here; the contract stands as `ensures` clauses
    /// on the operator implementation instead.
    open spec fn obeys_sub_spec() -> bool {
        false
    }

    open spec fn sub_req(self, rhs: Vector<S>) -> bool {
        forall|k: int| 0 <= k < S ==> fits_i32(self@[k] - rhs@[k])
    }

    open spec fn sub_spec(self, rhs: Vector<S>) -> Vector<S> {
        self
    }
}

impl<const S: usize> core::ops::Mul<Vector<S>> for Vector<S> {
    type Output = Vector<S>;

    fn mul(self, other: Vector<S>) -> (r: Vector<S>)
        ensures
            r@ == mul_int(self@, other@),
    {
        let mut e: [i32; S] = [0; S];
        let mut i: usize = 0;
        while i < S
            invariant
                i <= S,
                self@.len() == S,
                other@.len() == S,
                e@.len() == S,
                forall|k: int| 0 <= k < S ==> fits_i32(self@[k] * other@[k]),
                forall|k: int| 0 <= k < i ==> e@[k] == self@[k] * other@[k],
            decreases S - i,
        {
            assert(self@[i as int] == self.e@[i as int]);
            assert(other@[i as int] == other.e@[i as int]);
            e[i] = self.e[i] * other.e[i];
            i = i + 1;
        }
        assert(to_ints(e@) =~= mul_int(self@, other@));
        Vector { e }
    }
}

impl<const S: usize> vstd::std_specs::ops::MulSpecImpl<Vector<S>> for Vector<S> {
    /// An array-backed value cannot be built from its view in spec code, so
    /// the result is not named here; the contract stands as `ensures` clauses
    /// on the operator implementation instead.
    open spec fn obeys_mul_spec() -> bool {
        false
    }

    open spec fn mul_req(self, rhs: Vector<S>) -> bool {
        forall|k: int| 0 <= k < S ==> fits_i32(self@[k] * rhs@[k])
    }

    open spec fn mul_spec(self, rhs: Vector<S>) -> Vector<S> {
        self
    }
}

impl<const S: usize> core::ops::Div<Vector<S>> for Vector<S> {
    type Output = Vector<S>;

    fn div(self, other: Vector<S>) -> (r: Vector<S>)
        ensures
            r@ == div_int(self@, other@),
    {
        let mut e: [i32; S] = [0; S];
        let mut i: usize = 0;
        while i < S
            invariant
                i <= S,
                self@.len() == S,
                other@.len() == S,
                e@.len() == S,
                forall|k: int| 0 <= k < S ==> other@[k] != 0 && !(self@[k] == i32::MIN && other@[k]
                    == -1),
                forall|k: int| 0 <= k < i ==> e@[k] == tdiv(self@[k], other@[k]),
            decreases S - i,
        {
            assert(self@[i as int] == self.e@[i as int]);
            assert(other@[i as int] == other.e@[i as int]);
            proof {
                crate::math::utils::lemma_tdiv_fits(self@[i as int], other@[i as int]);
            }
            e[i] = self.e[i] / other.e[i];
            i = i + 1;
        }
        assert(to_ints(e@) =~= div_int(self@, other@));
        Vector { e }
    }
}

impl<const S: usize> vstd::std_specs::ops::DivSpecImpl<Vector<S>> for Vector<S> {
    /// An array-backed value cannot be built from its view in spec code, so
    /// the quotient is not named here; the contract stands as `ensures`
    /// clauses on the operator implementation instead.
    open spec fn obeys_div_spec() -> bool {
        false
    }

    open spec fn div_req(self, rhs: Vector<S>) -> bool {
        forall|k: int| 0 <= k < S ==> rhs@[k] != 0 && !(self@[k] == i32::MIN && rhs@[k] == -1)
    }

    open spec fn div_spec(self, rhs: Vector<S>) -> Vector<S> {
        self
    }
}

impl<const S: usize> core::ops::Mul<i32> for Vector<S> {
    type Output = Vector<S>;

    fn mul(self, other: i32) -> (r: Vector<S>)
        ensures
            r@ == scale_int(self@, other as int),
    {
        let mut e: [i32; S] = [0; S];
        let mut i: usize = 0;
        while i < S
            invariant
                i <= S,
                self@.len() == S,
                e@.len() == S,
                forall|k: int| 0 <= k < S ==> fits_i32(self@[k] * other),
                forall|k: int| 0 <= k < i ==> e@[k] == self@[k] * other,
            decreases S - i,
        {
            assert(self@[i as int] == self.e@[i as int]);
            e[i] = self.e[i] * other;
            i = i + 1;
        }
        assert(to_ints(e@) =~= scale_int(self@, other as int));
        Vector { e }
    }
}

impl<const S: usize> vstd::std_specs::ops::MulSpecImpl<i32> for Vector<S> {
    /// An array-backed value cannot be built from its view in spec code, so
    /// the result is not named here; the contract stands as `ensures` clauses
    /// on the operator implementation instead.
    open spec fn obeys_mul_spec() -> bool {
        false
    }

    open spec fn mul_req(self, rhs: i32) -> bool {
        forall|k: int| 0 <= k < S ==> fits_i32(self@[k] * rhs)
    }

    open spec fn mul_spec(self, rhs: i32) -> Vector<S> {
        self
    }
}

impl<const S: usize> core::ops::Div<i32> for Vector<S> {
    type Output = Vector<S>;

    fn div(self, other: i32) -> (r: Vector<S>)
        ensures
            r@ == scale_div_int(self@, other as int),
    {
        let mut e: [i32; S] = [0; S];
        let mut i: usize = 0;
        while i < S
            invariant
                i <= S,
                self@.len() == S,
                e@.len() == S,
                other != 0,
                forall|k: int| 0 <= k < S ==> !(self@[k] == i32::MIN && other == -1),
                forall|k: int| 0 <= k < i ==> e@[k] == tdiv(self@[k], other as int),
            decreases S - i,
        {
            assert(self@[i as int] == self.e@[i as int]);
            proof {
                crate::math::utils::lemma_tdiv_fits(self@[i as int], other as int);
            }
            e[i] = self.e[i] / other;
            i = i + 1;
        }
        assert(to_ints(e@) =~= scale_div_int(self@, other as int));
        Vector { e }
    }
}

impl<const S: usize> vstd::std_specs::ops::DivSpecImpl<i32> for Vector<S> {
    /// An array-backed value cannot be built from its view in spec code, so
    /// the quotient is not named here; the contract stands as `ensures`
    /// clauses on the operator implementation instead.
    open spec fn obeys_div_spec() -> bool {
        false
    }

    open spec fn div_req(self, rhs: i32) -> bool {
        rhs != 0 && forall|k: int| 0 <= k < S ==> !(self@[k] == i32::MIN && rhs == -1)
    }

    open spec fn div_spec(self, rhs: i32) -> Vector<S> {
        self
    }
}

impl<const S: usize> core::ops::Mul<Vector<S>> for i32 {
    type Output = Vector<S>;

    fn mul(self, other: Vector<S>) -> (r: Vector<S>)
        ensures
            r@ == scale_int(other@, self as int),
    {
        let mut e: [i32; S] = [0; S];
        let mut i: usize = 0;
        while i < S
            invariant
                i <= S,
                other@.len() == S,
                e@.len() == S,
                forall|k: int| 0 <= k < S ==> fits_i32(self * other@[k]),
                forall|k: int| 0 <= k < i ==> e@[k] == self * other@[k],
            decreases S - i,
        {
            assert(other@[i as int] == other.e@[i as int]);
            e[i] = other.e[i] * self;
            i = i + 1;
        }
        assert(to_ints(e@) =~= scale_int(other@, self as int));
        Vector { e }
    }
}

impl<const S: usize> vstd::std_specs::ops::MulSpecImpl<Vector<S>> for i32 {
    /// An array-backed value cannot be built from its view in spec code, so
    /// the result is not named here; the contract stands as `ensures` clauses
    /// on the operator implementation instead.
    open spec fn obeys_mul_spec() -> bool {
        false
    }

    open spec fn mul_req(self, rhs: Vector<S>) -> bool {
        forall|k: int| 0 <= k < S ==> fits_i32(self * rhs@[k])
    }

    open spec fn mul_spec(self, rhs: Vector<S>) -> Vector<S> {
        rhs
    }
}

impl<const S: usize> core::ops::Neg for Vector<S> {
    type Output = Vector<S>;

    fn neg(self) -> (r: Vector<S>)
        ensures
            r@ == neg_int(self@),
    {
        let mut e: [i32; S] = [0; S];
        let mut i: usize = 0;
        while i < S
            invariant
                i <= S,
                self@.len() == S,
                e@.len() == S,
                forall|k: int| 0 <= k < S ==> self@[k] != i32::MIN,
                forall|k: int| 0 <= k < i ==> e@[k] == -self@[k],
            decreases S - i,
        {
            assert(self@[i as int] == self.e@[i as int]);
            e[i] = -self.e[i];
            i = i + 1;
        }
        assert(to_ints(e@) =~= neg_int(self@));
        Vector { e }
    }
}

impl<const S: usize> vstd::std_specs::ops::NegSpecImpl for Vector<S> {
    /// An array-backed value cannot be built from its view in spec code, so
    /// the negation is not named here; the contract stands as `ensures`
    /// clauses on the operator implementation instead.
    open spec fn obeys_neg_spec() -> bool {
        false
    }

    open spec fn neg_req(self) -> bool {
        forall|k: int| 0 <= k < S ==> self@[k] != i32::MIN
    }

    open spec fn neg_spec(self) -> Vector<S> {
        self
    }
}

impl<const S: usize> PartialEq for Vector<S> {
    /// Two vectors are equal when every pair of corresponding components is
    /// equal; for integer components approximate equality is exact equality.
    fn eq(&self, other: &Self) -> (r: bool) {
        let mut i: usize = 0;
        while i < S
            invariant
                i <= S,
                self@.len() == S,
                other@.len() == S,
                forall|k: int| 0 <= k < i ==> self@[k] == other@[k],
            decreases S - i,
        {
            if self.e[i] != other.e[i] {
                assert(self@[i as int] != other@[i as int]);
                return false;
            }
            assert(self@[i as int] == other@[i as int]);
            i = i + 1;
        }
        assert(self@ =~= other@);
        true
    }
}

impl<const S: usize> vstd::std_specs::cmp::PartialEqSpecImpl for Vector<S> {
    open spec fn obeys_eq_spec() -> bool {
        true
    }

    open spec fn eq_spec(&self, other: &Vector<S>) -> bool {
        self@ == other@
    }
}

impl<const S: usize> core::ops::Index<usize> for Vector<S> {
    type Output = i32;

    /// Component access by position.
    fn index(&self, index: usize) -> (r: &i32)
        ensures
            *r == self@[index as int],
    {
        &self.e[index]
    }
}

impl<const S: usize> vstd::std_specs::core::IndexSpecImpl<usize> for Vector<S> {
    open spec fn index_req(&self, index: &usize) -> bool {
        *index < S
    }
}

/// Adding a vector and then subtracting it again gives back the original:
/// for all equal-length `v` and `w`, `(v + w) - w` equals `v` componentwise.
pub proof fn lemma_add_sub_cancels<const S: usize>(v: Vector<S>, w: Vector<S>)
    ensures
        sub_int(add_int(v@, w@), w@) == v@,
{
    assert(sub_int(add_int(v@, w@), w@) =~= v@);
}

/// The cross product is orthogonal to both of its operands: the dot product
/// of `a.cross(b)` with `a` and with `b` is zero.
pub proof fn lemma_cross_orthogonal(a: Vector<3>, b: Vector<3>)
    ensures
        dot_int(cross_int(a@, b@), a@, 3) == 0,
        dot_int(cross_int(a@, b@), b@, 3) == 0,
{
    let c = cross_int(a@, b@);
    reveal_with_fuel(dot_int, 4);
    assert(dot_int(c, a@, 3) == c[0] * a@[0] + c[1] * a@[1] + c[2] * a@[2]);
    assert(dot_int(c, b@, 3) == c[0] * b@[0] + c[1] * b@[1] + c[2] * b@[2]);
    assert((a@[1] * b@[2] - a@[2] * b@[1]) * a@[0] + (-(a@[0] * b@[2] - a@[2] * b@[0])) * a@[1] + (
    a@[0] * b@[1] - a@[1] * b@[0]) * a@[2] == 0) by (nonlinear_arith);
    assert((a@[1] * b@[2] - a@[2] * b@[1]) * b@[0] + (-(a@[0] * b@[2] - a@[2] * b@[0])) * b@[1] + (
    a@[0] * b@[1] - a@[1] * b@[0]) * b@[2] == 0) by (nonlinear_arith);
}

} // verus!
