//! Two-component integer vector with named fields.

use vstd::prelude::*;

use vstd::std_specs::ops::AddSpec;
use vstd::std_specs::ops::SubSpec;

use crate::math::utils::fits_i32;
use crate::math::utils::tdiv;

verus! {

#[derive(Debug, Clone, Copy, PartialEq, Eq, Structural)]
pub struct IVec2 {
    pub x: i32,
    pub y: i32,
}

impl IVec2 {
    /// The vector with every component zero.
    pub fn zero() -> (r: Self)
        ensures
            r.x == 0,
            r.y == 0,
    {
        IVec2 { x: 0, y: 0 }
    }

    pub fn new(x: i32, y: i32) -> (r: Self)
        ensures
            r.x == x,
            r.y == y,
    {
        IVec2 { x, y }
    }

    /// Dot product: the sum of the pairwise products of the components.
    pub fn dot(&self, other: &Self) -> (r: i32)
        requires
            fits_i32(self.x * other.x),
            fits_i32(self.y * other.y),
            fits_i32(self.x * other.x + self.y * other.y),
        ensures
            r == self.x * other.x + self.y * other.y,
    {
        self.x * other.x + self.y * other.y
    }

    /// The squared length of the vector, `self.dot(self)`.
    pub fn length_squared(&self) -> (r: i32)
        requires
            fits_i32(self.x * self.x),
            fits_i32(self.y * self.y),
            fits_i32(self.x * self.x + self.y * self.y),
        ensures
            r == self.x * self.x + self.y * self.y,
    {
        self.x * self.x + self.y * self.y
    }
}

impl core::ops::Neg for IVec2 {
    type Output = IVec2;

    fn neg(self) -> IVec2 {
        IVec2 { x: -self.x, y: -self.y }
    }
}

impl vstd::std_specs::ops::NegSpecImpl for IVec2 {
    open spec fn obeys_neg_spec() -> bool {
        true
    }

    open spec fn neg_req(self) -> bool {
        self.x != i32::MIN && self.y != i32::MIN
    }

    open spec fn neg_spec(self) -> IVec2 {
        IVec2 { x: (-self.x) as i32, y: (-self.y) as i32 }
    }
}

impl core::ops::Add<IVec2> for IVec2 {
    type Output = IVec2;

    fn add(self, other: IVec2) -> IVec2 {
        IVec2 { x: self.x + other.x, y: self.y + other.y }
    }
}

impl vstd::std_specs::ops::AddSpecImpl<IVec2> for IVec2 {
    open spec fn obeys_add_spec() -> bool {
        true
    }

    open spec fn add_req(self, rhs: IVec2) -> bool {
        fits_i32(self.x + rhs.x) && fits_i32(self.y + rhs.y)
    }

    open spec fn add_spec(self, rhs: IVec2) -> IVec2 {
        IVec2 { x: (self.x + rhs.x) as i32, y: (self.y + rhs.y) as i32 }
    }
}

impl core::ops::Sub<IVec2> for IVec2 {
    type Output = IVec2;

    fn sub(self, other: IVec2) -> IVec2 {
        IVec2 { x: self.x - other.x, y: self.y - other.y }
    }
}

impl vstd::std_specs::ops::SubSpecImpl<IVec2> for IVec2 {
    open spec fn obeys_sub_spec() -> bool {
        true
    }

    open spec fn sub_req(self, rhs: IVec2) -> bool {
        fits_i32(self.x - rhs.x) && fits_i32(self.y - rhs.y)
    }

    open spec fn sub_spec(self, rhs: IVec2) -> IVec2 {
        IVec2 { x: (self.x - rhs.x) as i32, y: (self.y - rhs.y) as i32 }
    }
}

impl core::ops::Mul<IVec2> for IVec2 {
    type Output = IVec2;

    fn mul(self, other: IVec2) -> IVec2 {
        IVec2 { x: self.x * other.x, y: self.y * other.y }
    }
}

impl vstd::std_specs::ops::MulSpecImpl<IVec2> for IVec2 {
    open spec fn obeys_mul_spec() -> bool {
        true
    }

    open spec fn mul_req(self, rhs: IVec2) -> bool {
        fits_i32(self.x * rhs.x) && fits_i32(self.y * rhs.y)
    }

    open spec fn mul_spec(self, rhs: IVec2) -> IVec2 {
        IVec2 { x: (self.x * rhs.x) as i32, y: (self.y * rhs.y) as i32 }
    }
}

impl core::ops::Div<IVec2> for IVec2 {
    type Output = IVec2;

    fn div(self, other: IVec2) -> IVec2 {
        IVec2 { x: self.x / other.x, y: self.y / other.y }
    }
}

impl vstd::std_specs::ops::DivSpecImpl<IVec2> for IVec2 {
    open spec fn obeys_div_spec() -> bool {
        true
    }

    open spec fn div_req(self, rhs: IVec2) -> bool {
        rhs.x != 0 && !(self.x == i32::MIN && rhs.x == -1) && rhs.y != 0 && !(self.y == i32::MIN
            && rhs.y == -1)
    }

    open spec fn div_spec(self, rhs: IVec2) -> IVec2 {
        IVec2 { x: tdiv(self.x as int, rhs.x as int) as i32, y: tdiv(self.y as int, rhs.y as int) as i32 }
    }
}

impl core::ops::Mul<i32> for IVec2 {
    type Output = IVec2;

    fn mul(self, other: i32) -> IVec2 {
        IVec2 { x: self.x * other, y: self.y * other }
    }
}

impl vstd::std_specs::ops::MulSpecImpl<i32> for IVec2 {
    open spec fn obeys_mul_spec() -> bool {
        true
    }

    open spec fn mul_req(self, rhs: i32) -> bool {
        fits_i32(self.x * rhs) && fits_i32(self.y * rhs)
    }

    open spec fn mul_spec(self, rhs: i32) -> IVec2 {
        IVec2 { x: (self.x * rhs) as i32, y: (self.y * rhs) as i32 }
    }
}

impl core::ops::Div<i32> for IVec2 {
    type Output = IVec2;

    fn div(self, other: i32) -> IVec2 {
        IVec2 { x: self.x / other, y: self.y / other }
    }
}

impl vstd::std_specs::ops::DivSpecImpl<i32> for IVec2 {
    open spec fn obeys_div_spec() -> bool {
        true
    }

    open spec fn div_req(self, rhs: i32) -> bool {
        rhs != 0 && !(self.x == i32::MIN && rhs == -1) && !(self.y == i32::MIN && rhs == -1)
    }

    open spec fn div_spec(self, rhs: i32) -> IVec2 {
        IVec2 { x: tdiv(self.x as int, rhs as int) as i32, y: tdiv(self.y as int, rhs as int) as i32 }
    }
}

impl core::ops::Mul<IVec2> for i32 {
    type Output = IVec2;

    fn mul(self, other: IVec2) -> IVec2 {
        IVec2 { x: self * other.x, y: self * other.y }
    }
}

impl vstd::std_specs::ops::MulSpecImpl<IVec2> for i32 {
    open spec fn obeys_mul_spec() -> bool {
        true
    }

    open spec fn mul_req(self, rhs: IVec2) -> bool {
        fits_i32(self * rhs.x) && fits_i32(self * rhs.y)
    }

    open spec fn mul_spec(self, rhs: IVec2) -> IVec2 {
        IVec2 { x: (self * rhs.x) as i32, y: (self * rhs.y) as i32 }
    }
}

impl core::ops::Index<usize> for IVec2 {
    type Output = i32;

    /// Component access by position: `0` is `x`, `1` is `y`.
    fn index(&self, index: usize) -> (r: &i32)
        ensures
            *r == if index == 0 {
                self.x
            } else {
                self.y
            },
    {
        if index == 0 {
            &self.x
        } else {
            &self.y
        }
    }
}

impl vstd::std_specs::core::IndexSpecImpl<usize> for IVec2 {
    open spec fn index_req(&self, index: &usize) -> bool {
        *index < 2
    }
}

/// Adding a vector and then subtracting it again gives back the original:
/// whenever `v + w` stays in range, `(v + w) - w` equals `v`.
pub proof fn lemma_add_sub_cancels(v: IVec2, w: IVec2)
    requires
        fits_i32(v.x + w.x),
        fits_i32(v.y + w.y),
    ensures
        v.add_spec(w).sub_spec(w) == v,
{
}

} // verus!
