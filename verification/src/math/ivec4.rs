//! Four-component integer vector with named fields.

use vstd::prelude::*;

use vstd::std_specs::ops::AddSpec;
use vstd::std_specs::ops::SubSpec;

use crate::math::utils::fits_i32;
use crate::math::utils::tdiv;

verus! {

#[derive(Debug, Clone, Copy, PartialEq, Eq, Structural)]
pub struct IVec4 {
    pub x: i32,
    pub y: i32,
    pub z: i32,
    pub w: i32,
}

impl IVec4 {
    /// The vector with every component zero.
    pub fn zero() -> (r: Self)
        ensures
            r.x == 0,
            r.y == 0,
            r.z == 0,
            r.w == 0,
    {
        IVec4 { x: 0, y: 0, z: 0, w: 0 }
    }

    pub fn new(x: i32, y: i32, z: i32, w: i32) -> (r: Self)
        ensures
            r.x == x,
            r.y == y,
            r.z == z,
            r.w == w,
    {
        IVec4 { x, y, z, w }
    }

    /// Dot product: the sum of the pairwise products of the components.
    pub fn dot(&self, other: &Self) -> (r: i32)
        requires
            fits_i32(self.x * other.x),
            fits_i32(self.y * other.y),
            fits_i32(self.z * other.z),
            fits_i32(self.w * other.w),
            fits_i32(self.x * other.x + self.y * other.y),
            fits_i32(self.x * other.x + self.y * other.y + self.z * other.z),
            fits_i32(self.x * other.x + self.y * other.y + self.z * other.z + self.w * other.w),
        ensures
            r == self.x * other.x + self.y * other.y + self.z * other.z + self.w * other.w,
    {
        self.x * other.x + self.y * other.y + self.z * other.z + self.w * other.w
    }

    /// The squared length of the vector, `self.dot(self)`.
    pub fn length_squared(&self) -> (r: i32)
        requires
            fits_i32(self.x * self.x),
            fits_i32(self.y * self.y),
            fits_i32(self.z * self.z),
            fits_i32(self.w * self.w),
            fits_i32(self.x * self.x + self.y * self.y),
            fits_i32(self.x * self.x + self.y * self.y + self.z * self.z),
            fits_i32(self.x * self.x + self.y * self.y + self.z * self.z + self.w * self.w),
        ensures
            r == self.x * self.x + self.y * self.y + self.z * self.z + self.w * self.w,
    {
        self.x * self.x + self.y * self.y + self.z * self.z + self.w * self.w
    }

    /// True when the squared length is exactly one.
    pub fn is_unit(&self) -> (r: bool)
        requires
            fits_i32(self.x * self.x),
            fits_i32(self.y * self.y),
            fits_i32(self.z * self.z),
            fits_i32(self.w * self.w),
            fits_i32(self.x * self.x + self.y * self.y),
            fits_i32(self.x * self.x + self.y * self.y + self.z * self.z),
            fits_i32(self.x * self.x + self.y * self.y + self.z * self.z + self.w * self.w),
        ensures
            r == (self.x * self.x + self.y * self.y + self.z * self.z + self.w * self.w == 1),
    {
        self.length_squared() == 1
    }
}

impl core::ops::Neg for IVec4 {
    type Output = IVec4;

    fn neg(self) -> IVec4 {
        IVec4 { x: -self.x, y: -self.y, z: -self.z, w: -self.w }
    }
}

impl vstd::std_specs::ops::NegSpecImpl for IVec4 {
    open spec fn obeys_neg_spec() -> bool {
        true
    }

    open spec fn neg_req(self) -> bool {
        self.x != i32::MIN && self.y != i32::MIN && self.z != i32::MIN && self.w != i32::MIN
    }

    open spec fn neg_spec(self) -> IVec4 {
        IVec4 { x: (-self.x) as i32, y: (-self.y) as i32, z: (-self.z) as i32, w: (-self.w) as i32 }
    }
}

impl core::ops::Add<IVec4> for IVec4 {
    type Output = IVec4;

    fn add(self, other: IVec4) -> IVec4 {
        IVec4 { x: self.x + other.x, y: self.y + other.y, z: self.z + other.z, w: self.w + other.w }
    }
}

impl vstd::std_specs::ops::AddSpecImpl<IVec4> for IVec4 {
    open spec fn obeys_add_spec() -> bool {
        true
    }

    open spec fn add_req(self, rhs: IVec4) -> bool {
        fits_i32(self.x + rhs.x) && fits_i32(self.y + rhs.y) && fits_i32(self.z + rhs.z) && fits_i32(self.w + rhs.w)
    }

    open spec fn add_spec(self, rhs: IVec4) -> IVec4 {
        IVec4 { x: (self.x + rhs.x) as i32, y: (self.y + rhs.y) as i32, z: (self.z + rhs.z) as i32, w: (self.w + rhs.w) as i32 }
    }
}

impl core::ops::Sub<IVec4> for IVec4 {
    type Output = IVec4;

    fn sub(self, other: IVec4) -> IVec4 {
        IVec4 { x: self.x - other.x, y: self.y - other.y, z: self.z - other.z, w: self.w - other.w }
    }
}

impl vstd::std_specs::ops::SubSpecImpl<IVec4> for IVec4 {
    open spec fn obeys_sub_spec() -> bool {
        true
    }

    open spec fn sub_req(self, rhs: IVec4) -> bool {
        fits_i32(self.x - rhs.x) && fits_i32(self.y - rhs.y) && fits_i32(self.z - rhs.z) && fits_i32(self.w - rhs.w)
    }

    open spec fn sub_spec(self, rhs: IVec4) -> IVec4 {
        IVec4 { x: (self.x - rhs.x) as i32, y: (self.y - rhs.y) as i32, z: (self.z - rhs.z) as i32, w: (self.w - rhs.w) as i32 }
    }
}

impl core::ops::Mul<IVec4> for IVec4 {
    type Output = IVec4;

    fn mul(self, other: IVec4) -> IVec4 {
        IVec4 { x: self.x * other.x, y: self.y * other.y, z: self.z * other.z, w: self.w * other.w }
    }
}

impl vstd::std_specs::ops::MulSpecImpl<IVec4> for IVec4 {
    open spec fn obeys_mul_spec() -> bool {
        true
    }

    open spec fn mul_req(self, rhs: IVec4) -> bool {
        fits_i32(self.x * rhs.x) && fits_i32(self.y * rhs.y) && fits_i32(self.z * rhs.z) && fits_i32(self.w * rhs.w)
    }

    open spec fn mul_spec(self, rhs: IVec4) -> IVec4 {
        IVec4 { x: (self.x * rhs.x) as i32, y: (self.y * rhs.y) as i32, z: (self.z * rhs.z) as i32, w: (self.w * rhs.w) as i32 }
    }
}

impl core::ops::Div<IVec4> for IVec4 {
    type Output = IVec4;

    fn div(self, other: IVec4) -> IVec4 {
        IVec4 { x: self.x / other.x, y: self.y / other.y, z: self.z / other.z, w: self.w / other.w }
    }
}

impl vstd::std_specs::ops::DivSpecImpl<IVec4> for IVec4 {
    open spec fn obeys_div_spec() -> bool {
        true
    }

    open spec fn div_req(self, rhs: IVec4) -> bool {
        rhs.x != 0 && !(self.x == i32::MIN && rhs.x == -1) && rhs.y != 0 && !(self.y == i32::MIN && rhs.y == -1) && rhs.z != 0 && !(self.z == i32::MIN && rhs.z == -1) && rhs.w != 0 && !(self.w == i32::MIN && rhs.w == -1)
    }

    open spec fn div_spec(self, rhs: IVec4) -> IVec4 {
        IVec4 { x: tdiv(self.x as int, rhs.x as int) as i32, y: tdiv(self.y as int, rhs.y as int) as i32, z: tdiv(self.z as int, rhs.z as int) as i32, w: tdiv(self.w as int, rhs.w as int) as i32 }
    }
}

impl core::ops::Mul<i32> for IVec4 {
    type Output = IVec4;

    fn mul(self, other: i32) -> IVec4 {
        IVec4 { x: self.x * other, y: self.y * other, z: self.z * other, w: self.w * other }
    }
}

impl vstd::std_specs::ops::MulSpecImpl<i32> for IVec4 {
    open spec fn obeys_mul_spec() -> bool {
        true
    }

    open spec fn mul_req(self, rhs: i32) -> bool {
        fits_i32(self.x * rhs) && fits_i32(self.y * rhs) && fits_i32(self.z * rhs) && fits_i32(self.w * rhs)
    }

    open spec fn mul_spec(self, rhs: i32) -> IVec4 {
        IVec4 { x: (self.x * rhs) as i32, y: (self.y * rhs) as i32, z: (self.z * rhs) as i32, w: (self.w * rhs) as i32 }
    }
}

impl core::ops::Div<i32> for IVec4 {
    type Output = IVec4;

    fn div(self, other: i32) -> IVec4 {
        IVec4 { x: self.x / other, y: self.y / other, z: self.z / other, w: self.w / other }
    }
}

impl vstd::std_specs::ops::DivSpecImpl<i32> for IVec4 {
    open spec fn obeys_div_spec() -> bool {
        true
    }

    open spec fn div_req(self, rhs: i32) -> bool {
        rhs != 0 && !(self.x == i32::MIN && rhs == -1) && !(self.y == i32::MIN && rhs == -1) && !(self.z == i32::MIN && rhs == -1) && !(self.w == i32::MIN && rhs == -1)
    }

    open spec fn div_spec(self, rhs: i32) -> IVec4 {
        IVec4 { x: tdiv(self.x as int, rhs as int) as i32, y: tdiv(self.y as int, rhs as int) as i32, z: tdiv(self.z as int, rhs as int) as i32, w: tdiv(self.w as int, rhs as int) as i32 }
    }
}

impl core::ops::Mul<IVec4> for i32 {
    type Output = IVec4;

    fn mul(self, other: IVec4) -> IVec4 {
        IVec4 { x: self * other.x, y: self * other.y, z: self * other.z, w: self * other.w }
    }
}

impl vstd::std_specs::ops::MulSpecImpl<IVec4> for i32 {
    open spec fn obeys_mul_spec() -> bool {
        true
    }

    open spec fn mul_req(self, rhs: IVec4) -> bool {
        fits_i32(self * rhs.x) && fits_i32(self * rhs.y) && fits_i32(self * rhs.z) && fits_i32(self * rhs.w)
    }

    open spec fn mul_spec(self, rhs: IVec4) -> IVec4 {
        IVec4 { x: (self * rhs.x) as i32, y: (self * rhs.y) as i32, z: (self * rhs.z) as i32, w: (self * rhs.w) as i32 }
    }
}

impl core::ops::Index<usize> for IVec4 {
    type Output = i32;

    /// Component access by position, in declaration order.
    fn index(&self, index: usize) -> (r: &i32)
        ensures
            *r == if index == 0 {
                self.x
            } else if index == 1 {
                self.y
            } else if index == 2 {
                self.z
            } else {
                self.w
            },
    {
        if index == 0 {
            &self.x
        } else if index == 1 {
            &self.y
        } else if index == 2 {
            &self.z
        } else {
            &self.w
        }
    }
}

impl vstd::std_specs::core::IndexSpecImpl<usize> for IVec4 {
    open spec fn index_req(&self, index: &usize) -> bool {
        *index < 4
    }
}

/// Adding a vector and then subtracting it again gives back the original:
/// whenever `v + w` stays in range, `(v + w) - w` equals `v`.
pub proof fn lemma_add_sub_cancels(v: IVec4, w: IVec4)
    requires
        fits_i32(v.x + w.x),
        fits_i32(v.y + w.y),
        fits_i32(v.z + w.z),
        fits_i32(v.w + w.w),
    ensures
        v.add_spec(w).sub_spec(w) == v,
{
}

} // verus!
