//! Integer vector whose length is chosen at construction time.

use vstd::prelude::*;

use crate::math::utils::dot_int;
use crate::math::utils::fits_i32;
use crate::math::utils::tdiv;
use crate::math::utils::to_ints;

verus! {

/// An integer vector of arbitrary, run-time chosen length. Its view is the
/// sequence of its components as mathematical integers; every elementwise
/// operation demands operands of equal length.
#[derive(Debug, Clone)]
pub struct IVecN {
    pub data: Vec<i32>,
}

impl View for IVecN {
    type V = Seq<int>;

    open spec fn view(&self) -> Seq<int> {
        to_ints(self.data@)
    }
}

impl IVecN {
    pub fn new(data: &[i32]) -> (r: IVecN)
        ensures
            r@ == to_ints(data@),
    {
        IVecN { data: vstd::slice::slice_to_vec(data) }
    }

    /// The vector of `size` zero components.
    pub fn zero(size: usize) -> (r: IVecN)
        ensures
            r@.len() == size,
            forall|k: int| 0 <= k < size ==> r@[k] == 0,
    {
        let mut data: Vec<i32> = Vec::new();
        let mut i: usize = 0;
        while i < size
            invariant
                i <= size,
                data@.len() == i,
                forall|k: int| 0 <= k < i ==> data@[k] == 0,
            decreases size - i,
        {
            data.push(0);
            i = i + 1;
        }
        IVecN { data }
    }

    /// Dot product: the sum of the pairwise products of the components.
    pub fn dot(&self, other: &Self) -> (r: i32)
        requires
            self@.len() == other@.len(),
            forall|k: int| 0 <= k < self@.len() ==> fits_i32(self@[k] * other@[k]),
            forall|k: int| 0 <= k <= self@.len() ==> fits_i32(dot_int(self@, other@, k)),
        ensures
            r == dot_int(self@, other@, self@.len() as int),
    {
        let n = self.data.len();
        let mut result: i32 = 0;
        let mut i: usize = 0;
        while i < n
            invariant
                i <= n,
                n == self@.len(),
                other@.len() == n,
                result == dot_int(self@, other@, i as int),
                forall|k: int| 0 <= k < n ==> fits_i32(self@[k] * other@[k]),
                forall|k: int| 0 <= k <= n ==> fits_i32(dot_int(self@, other@, k)),
            decreases n - i,
        {
            assert(dot_int(self@, other@, i + 1) == dot_int(self@, other@, i as int) + self@[i as int]
                * other@[i as int]);
            result = result + self.data[i] * other.data[i];
            i = i + 1;
        }
        result
    }

    /// The squared length of the vector, `self.dot(self)`.
    pub fn length_squared(&self) -> (r: i32)
        requires
            forall|k: int| 0 <= k < self@.len() ==> fits_i32(self@[k] * self@[k]),
            forall|k: int| 0 <= k <= self@.len() ==> fits_i32(dot_int(self@, self@, k)),
        ensures
            r == dot_int(self@, self@, self@.len() as int),
    {
        self.dot(self)
    }

    /// The number of components.
    pub fn size(&self) -> (r: usize)
        ensures
            r == self@.len(),
    {
        self.data.len()
    }

    /// True when the squared length is exactly one.
    pub fn is_unit(&self) -> (r: bool)
        requires
            forall|k: int| 0 <= k < self@.len() ==> fits_i32(self@[k] * self@[k]),
            forall|k: int| 0 <= k <= self@.len() ==> fits_i32(dot_int(self@, self@, k)),
        ensures
            r == (dot_int(self@, self@, self@.len() as int) == 1),
    {
        self.length_squared() == 1
    }
}

impl core::ops::Neg for IVecN {
    type Output = IVecN;

    fn neg(self) -> (r: IVecN)
        ensures
            r@.len() == self@.len(),
            forall|k: int| 0 <= k < self@.len() ==> r@[k] == -self@[k],
    {
        let n = self.data.len();
        let mut data: Vec<i32> = Vec::new();
        let mut i: usize = 0;
        while i < n
            invariant
                i <= n,
                n == self@.len(),
                data@.len() == i,
                forall|k: int| 0 <= k < self@.len() ==> self@[k] != i32::MIN,
                forall|k: int| 0 <= k < i ==> data@[k] == -self@[k],
            decreases n - i,
        {
            assert(self@[i as int] == self.data@[i as int]);
            data.push(-self.data[i]);
            i = i + 1;
        }
        IVecN { data }
    }
}

impl vstd::std_specs::ops::NegSpecImpl for IVecN {
    /// A `Vec`-backed value is not pinned down to one spec value by its view,
    /// so the negation result cannot be named here; the contract stands as
    /// `ensures` clauses on the operator implementation instead.
    open spec fn obeys_neg_spec() -> bool {
        false
    }

    open spec fn neg_req(self) -> bool {
        forall|k: int| 0 <= k < self@.len() ==> self@[k] != i32::MIN
    }

    open spec fn neg_spec(self) -> IVecN {
        self
    }
}

impl core::ops::Add<IVecN> for IVecN {
    type Output = IVecN;

    fn add(self, other: IVecN) -> (r: IVecN)
        ensures
            r@.len() == self@.len(),
            forall|k: int| 0 <= k < self@.len() ==> r@[k] == self@[k] + other@[k],
    {
        let n = self.data.len();
        let mut data: Vec<i32> = Vec::new();
        let mut i: usize = 0;
        while i < n
            invariant
                i <= n,
                n == self@.len(),
                other@.len() == n,
                data@.len() == i,
                forall|k: int| 0 <= k < n ==> fits_i32(self@[k] + other@[k]),
                forall|k: int| 0 <= k < i ==> data@[k] == self@[k] + other@[k],
            decreases n - i,
        {
            assert(self@[i as int] == self.data@[i as int]);
            assert(other@[i as int] == other.data@[i as int]);
            data.push(self.data[i] + other.data[i]);
            i = i + 1;
        }
        IVecN { data }
    }
}

impl vstd::std_specs::ops::AddSpecImpl<IVecN> for IVecN {
    /// A `Vec`-backed value is not pinned down to one spec value by its view,
    /// so the sum cannot be named here; the contract stands as `ensures`
    /// clauses on the operator implementation instead.
    open spec fn obeys_add_spec() -> bool {
        false
    }

    open spec fn add_req(self, rhs: IVecN) -> bool {
        self@.len() == rhs@.len() && forall|k: int|
            0 <= k < self@.len() ==> fits_i32(self@[k] + rhs@[k])
    }

    open spec fn add_spec(self, rhs: IVecN) -> IVecN {
        self
    }
}

impl core::ops::Sub<IVecN> for IVecN {
    type Output = IVecN;

    fn sub(self, other: IVecN) -> (r: IVecN)
        ensures
            r@.len() == self@.len(),
            forall|k: int| 0 <= k < self@.len() ==> r@[k] == self@[k] - other@[k],
    {
        let n = self.data.len();
        let mut data: Vec<i32> = Vec::new();
        let mut i: usize = 0;
        while i < n
            invariant
                i <= n,
                n == self@.len(),
                other@.len() == n,
                data@.len() == i,
                forall|k: int| 0 <= k < n ==> fits_i32(self@[k] - other@[k]),
                forall|k: int| 0 <= k < i ==> data@[k] == self@[k] - other@[k],
            decreases n - i,
        {
            assert(self@[i as int] == self.data@[i as int]);
            assert(other@[i as int] == other.data@[i as int]);
            data.push(self.data[i] - other.data[i]);
            i = i + 1;
        }
        IVecN { data }
    }
}

impl vstd::std_specs::ops::SubSpecImpl<IVecN> for IVecN {
    /// A `Vec`-backed value is not pinned down to one spec value by its view,
    /// so the result cannot be named here; the contract stands as `ensures`
    /// clauses on the operator implementation instead.
    open spec fn obeys_sub_spec() -> bool {
        false
    }

    open spec fn sub_req(self, rhs: IVecN) -> bool {
        self@.len() == rhs@.len() && forall|k: int|
            0 <= k < self@.len() ==> fits_i32(self@[k] - rhs@[k])
    }

    open spec fn sub_spec(self, rhs: IVecN) -> IVecN {
        self
    }
}

impl core::ops::Mul<IVecN> for IVecN {
    type Output = IVecN;

    fn mul(self, other: IVecN) -> (r: IVecN)
        ensures
            r@.len() == self@.len(),
            forall|k: int| 0 <= k < self@.len() ==> r@[k] == self@[k] * other@[k],
    {
        let n = self.data.len();
        let mut data: Vec<i32> = Vec::new();
        let mut i: usize = 0;
        while i < n
            invariant
                i <= n,
                n == self@.len(),
                other@.len() == n,
                data@.len() == i,
                forall|k: int| 0 <= k < n ==> fits_i32(self@[k] * other@[k]),
                forall|k: int| 0 <= k < i ==> data@[k] == self@[k] * other@[k],
            decreases n - i,
        {
            assert(self@[i as int] == self.data@[i as int]);
            assert(other@[i as int] == other.data@[i as int]);
            data.push(self.data[i] * other.data[i]);
            i = i + 1;
        }
        IVecN { data }
    }
}

impl vstd::std_specs::ops::MulSpecImpl<IVecN> for IVecN {
    /// A `Vec`-backed value is not pinned down to one spec value by its view,
    /// so the result cannot be named here; the contract stands as `ensures`
    /// clauses on the operator implementation instead.
    open spec fn obeys_mul_spec() -> bool {
        false
    }

    open spec fn mul_req(self, rhs: IVecN) -> bool {
        self@.len() == rhs@.len() && forall|k: int|
            0 <= k < self@.len() ==> fits_i32(self@[k] * rhs@[k])
    }

    open spec fn mul_spec(self, rhs: IVecN) -> IVecN {
        self
    }
}

impl core::ops::Div<IVecN> for IVecN {
    type Output = IVecN;

    fn div(self, other: IVecN) -> (r: IVecN)
        ensures
            r@.len() == self@.len(),
            forall|k: int| 0 <= k < self@.len() ==> r@[k] == tdiv(self@[k], other@[k]),
    {
        let n = self.data.len();
        let mut data: Vec<i32> = Vec::new();
        let mut i: usize = 0;
        while i < n
            invariant
                i <= n,
                n == self@.len(),
                other@.len() == n,
                data@.len() == i,
                forall|k: int| 0 <= k < n ==> other@[k] != 0 && !(self@[k] == i32::MIN && other@[k] == -1),
                forall|k: int| 0 <= k < i ==> data@[k] == tdiv(self@[k], other@[k]),
            decreases n - i,
        {
            assert(self@[i as int] == self.data@[i as int]);
            assert(other@[i as int] == other.data@[i as int]);
            proof {
                crate::math::utils::lemma_tdiv_fits(self@[i as int], other@[i as int]);
            }
            data.push(self.data[i] / other.data[i]);
            i = i + 1;
        }
        IVecN { data }
    }
}

impl vstd::std_specs::ops::DivSpecImpl<IVecN> for IVecN {
    /// A `Vec`-backed value is not pinned down to one spec value by its view,
    /// so the quotient cannot be named here; the contract stands as `ensures`
    /// clauses on the operator implementation instead.
    open spec fn obeys_div_spec() -> bool {
        false
    }

    open spec fn div_req(self, rhs: IVecN) -> bool {
        self@.len() == rhs@.len() && forall|k: int|
            0 <= k < self@.len() ==> rhs@[k] != 0 && !(self@[k] == i32::MIN && rhs@[k] == -1)
    }

    open spec fn div_spec(self, rhs: IVecN) -> IVecN {
        self
    }
}

impl core::ops::Mul<i32> for IVecN {
    type Output = IVecN;

    fn mul(self, other: i32) -> (r: IVecN)
        ensures
            r@.len() == self@.len(),
            forall|k: int| 0 <= k < self@.len() ==> r@[k] == self@[k] * other,
    {
        let n = self.data.len();
        let mut data: Vec<i32> = Vec::new();
        let mut i: usize = 0;
        while i < n
            invariant
                i <= n,
                n == self@.len(),
                data@.len() == i,
                forall|k: int| 0 <= k < n ==> fits_i32(self@[k] * other),
                forall|k: int| 0 <= k < i ==> data@[k] == self@[k] * other,
            decreases n - i,
        {
            assert(self@[i as int] == self.data@[i as int]);
            data.push(self.data[i] * other);
            i = i + 1;
        }
        IVecN { data }
    }
}

impl vstd::std_specs::ops::MulSpecImpl<i32> for IVecN {
    /// A `Vec`-backed value is not pinned down to one spec value by its view,
    /// so the result cannot be named here; the contract stands as `ensures`
    /// clauses on the operator implementation instead.
    open spec fn obeys_mul_spec() -> bool {
        false
    }

    open spec fn mul_req(self, rhs: i32) -> bool {
        forall|k: int| 0 <= k < self@.len() ==> fits_i32(self@[k] * rhs)
    }

    open spec fn mul_spec(self, rhs: i32) -> IVecN {
        self
    }
}

impl core::ops::Div<i32> for IVecN {
    type Output = IVecN;

    fn div(self, other: i32) -> (r: IVecN)
        ensures
            r@.len() == self@.len(),
            forall|k: int| 0 <= k < self@.len() ==> r@[k] == tdiv(self@[k], other as int),
    {
        let n = self.data.len();
        let mut data: Vec<i32> = Vec::new();
        let mut i: usize = 0;
        while i < n
            invariant
                i <= n,
                n == self@.len(),
                data@.len() == i,
                other != 0,
                forall|k: int| 0 <= k < n ==> !(self@[k] == i32::MIN && other == -1),
                forall|k: int| 0 <= k < i ==> data@[k] == tdiv(self@[k], other as int),
            decreases n - i,
        {
            assert(self@[i as int] == self.data@[i as int]);
            proof {
                crate::math::utils::lemma_tdiv_fits(self@[i as int], other as int);
            }
            data.push(self.data[i] / other);
            i = i + 1;
        }
        IVecN { data }
    }
}

impl vstd::std_specs::ops::DivSpecImpl<i32> for IVecN {
    /// A `Vec`-backed value is not pinned down to one spec value by its view,
    /// so the quotient cannot be named here; the contract stands as `ensures`
    /// clauses on the operator implementation instead.
    open spec fn obeys_div_spec() -> bool {
        false
    }

    open spec fn div_req(self, rhs: i32) -> bool {
        rhs != 0 && forall|k: int| 0 <= k < self@.len() ==> !(self@[k] == i32::MIN && rhs == -1)
    }

    open spec fn div_spec(self, rhs: i32) -> IVecN {
        self
    }
}

impl core::ops::Mul<IVecN> for i32 {
    type Output = IVecN;

    fn mul(self, other: IVecN) -> (r: IVecN)
        ensures
            r@.len() == other@.len(),
            forall|k: int| 0 <= k < other@.len() ==> r@[k] == self * other@[k],
    {
        let n = other.data.len();
        let mut data: Vec<i32> = Vec::new();
        let mut i: usize = 0;
        while i < n
            invariant
                i <= n,
                n == other@.len(),
                data@.len() == i,
                forall|k: int| 0 <= k < n ==> fits_i32(self * other@[k]),
                forall|k: int| 0 <= k < i ==> data@[k] == self * other@[k],
            decreases n - i,
        {
            assert(other@[i as int] == other.data@[i as int]);
            data.push(other.data[i] * self);
            i = i + 1;
        }
        IVecN { data }
    }
}

impl vstd::std_specs::ops::MulSpecImpl<IVecN> for i32 {
    /// A `Vec`-backed value is not pinned down to one spec value by its view,
    /// so the result cannot be named here; the contract stands as `ensures`
    /// clauses on the operator implementation instead.
    open spec fn obeys_mul_spec() -> bool {
        false
    }

    open spec fn mul_req(self, rhs: IVecN) -> bool {
        forall|k: int| 0 <= k < rhs@.len() ==> fits_i32(self * rhs@[k])
    }

    open spec fn mul_spec(self, rhs: IVecN) -> IVecN {
        rhs
    }
}

impl PartialEq for IVecN {
    /// Two vectors are equal when they have the same length and every pair of
    /// corresponding components is equal.
    fn eq(&self, other: &Self) -> (r: bool) {
        if self.data.len() != other.data.len() {
            return false;
        }
        let n = self.data.len();
        let mut i: usize = 0;
        while i < n
            invariant
                i <= n,
                n == self@.len(),
                other@.len() == n,
                forall|k: int| 0 <= k < i ==> self@[k] == other@[k],
            decreases n - i,
        {
            if self.data[i] != other.data[i] {
                assert(self@[i as int] != other@[i as int]);
                return false;
            }
            assert(self@[i as int] == other@[i as int]);
            i = i + 1;
        }
        assert(self@ =~= other@);
        true
    }
}

impl vstd::std_specs::cmp::PartialEqSpecImpl for IVecN {
    open spec fn obeys_eq_spec() -> bool {
        true
    }

    open spec fn eq_spec(&self, other: &IVecN) -> bool {
        self@ == other@
    }
}

impl core::ops::Index<usize> for IVecN {
    type Output = i32;

    /// Component access by position.
    fn index(&self, index: usize) -> (r: &i32)
        ensures
            *r == self@[index as int],
    {
        &self.data[index]
    }
}

impl vstd::std_specs::core::IndexSpecImpl<usize> for IVecN {
    open spec fn index_req(&self, index: &usize) -> bool {
        *index < self@.len()
    }
}

/// Adding a vector and then subtracting it again gives back the original:
/// if `sum` is the componentwise sum of `v` and `w` and `diff` subtracts `w`
/// from it again, then `diff` holds exactly the components of `v`.
pub proof fn lemma_add_sub_cancels(v: IVecN, w: IVecN, sum: IVecN, diff: IVecN)
    requires
        v@.len() == w@.len(),
        sum@.len() == v@.len(),
        diff@.len() == v@.len(),
        forall|k: int| 0 <= k < v@.len() ==> sum@[k] == v@[k] + w@[k],
        forall|k: int| 0 <= k < v@.len() ==> diff@[k] == sum@[k] - w@[k],
    ensures
        diff@ == v@,
{
    assert(diff@ =~= v@);
}

} // verus!
