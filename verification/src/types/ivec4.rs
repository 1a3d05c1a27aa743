//! Four signed 32-bit components, `x`, `y`, `z`, `w`.

use vstd::prelude::*;
use vstd::std_specs::ops::{AddSpecImpl, DivSpecImpl, MulSpecImpl, NegSpecImpl, SubSpecImpl};
use crate::types::arith::{divides, quotient};

verus! {

/// Four signed 32-bit components, `x`, `y`, `z`, `w`.
#[derive(Debug, Clone, Copy, PartialEq, Eq, Structural, Hash)]
pub struct IVec4 {
    pub x: i32,
    pub y: i32,
    pub z: i32,
    pub w: i32,
}

impl core::ops::Add<IVec4> for IVec4 {
    type Output = IVec4;

    /// The sum, component by component. No component may overflow.
    fn add(self, rhs: IVec4) -> (result: IVec4) {
        IVec4 { x: self.x + rhs.x, y: self.y + rhs.y, z: self.z + rhs.z, w: self.w + rhs.w }
    }
}

impl AddSpecImpl<IVec4> for IVec4 {
    open spec fn obeys_add_spec() -> bool {
        true
    }

    /// Whether the operation is defined on these operands.
    open spec fn add_req(self, rhs: IVec4) -> bool {
        &&& i32::MIN <= self.x + rhs.x <= i32::MAX
        &&& i32::MIN <= self.y + rhs.y <= i32::MAX
        &&& i32::MIN <= self.z + rhs.z <= i32::MAX
        &&& i32::MIN <= self.w + rhs.w <= i32::MAX
    }

    open spec fn add_spec(self, rhs: IVec4) -> IVec4 {
        IVec4 {
            x: (self.x + rhs.x) as i32,
            y: (self.y + rhs.y) as i32,
            z: (self.z + rhs.z) as i32,
            w: (self.w + rhs.w) as i32,
        }
    }
}

impl core::ops::Sub<IVec4> for IVec4 {
    type Output = IVec4;

    /// The difference, component by component. No component may overflow.
    fn sub(self, rhs: IVec4) -> (result: IVec4) {
        IVec4 { x: self.x - rhs.x, y: self.y - rhs.y, z: self.z - rhs.z, w: self.w - rhs.w }
    }
}

impl SubSpecImpl<IVec4> for IVec4 {
    open spec fn obeys_sub_spec() -> bool {
        true
    }

    /// Whether the operation is defined on these operands.
    open spec fn sub_req(self, rhs: IVec4) -> bool {
        &&& i32::MIN <= self.x - rhs.x <= i32::MAX
        &&& i32::MIN <= self.y - rhs.y <= i32::MAX
        &&& i32::MIN <= self.z - rhs.z <= i32::MAX
        &&& i32::MIN <= self.w - rhs.w <= i32::MAX
    }

    open spec fn sub_spec(self, rhs: IVec4) -> IVec4 {
        IVec4 {
            x: (self.x - rhs.x) as i32,
            y: (self.y - rhs.y) as i32,
            z: (self.z - rhs.z) as i32,
            w: (self.w - rhs.w) as i32,
        }
    }
}

impl core::ops::Mul<IVec4> for IVec4 {
    type Output = IVec4;

    /// The product, component by component. No component may overflow.
    fn mul(self, rhs: IVec4) -> (result: IVec4) {
        IVec4 { x: self.x * rhs.x, y: self.y * rhs.y, z: self.z * rhs.z, w: self.w * rhs.w }
    }
}

impl MulSpecImpl<IVec4> for IVec4 {
    open spec fn obeys_mul_spec() -> bool {
        true
    }

    /// Whether the operation is defined on these operands.
    open spec fn mul_req(self, rhs: IVec4) -> bool {
        &&& i32::MIN <= self.x * rhs.x <= i32::MAX
        &&& i32::MIN <= self.y * rhs.y <= i32::MAX
        &&& i32::MIN <= self.z * rhs.z <= i32::MAX
        &&& i32::MIN <= self.w * rhs.w <= i32::MAX
    }

    open spec fn mul_spec(self, rhs: IVec4) -> IVec4 {
        IVec4 {
            x: (self.x * rhs.x) as i32,
            y: (self.y * rhs.y) as i32,
            z: (self.z * rhs.z) as i32,
            w: (self.w * rhs.w) as i32,
        }
    }
}

impl core::ops::Div<IVec4> for IVec4 {
    type Output = IVec4;

    /// The quotient, component by component, rounded toward zero. No divisor may
    /// be 0, and no component may overflow.
    fn div(self, rhs: IVec4) -> (result: IVec4) {
        IVec4 { x: self.x / rhs.x, y: self.y / rhs.y, z: self.z / rhs.z, w: self.w / rhs.w }
    }
}

impl DivSpecImpl<IVec4> for IVec4 {
    open spec fn obeys_div_spec() -> bool {
        true
    }

    /// Whether the operation is defined on these operands.
    open spec fn div_req(self, rhs: IVec4) -> bool {
        &&& divides(self.x, rhs.x)
        &&& divides(self.y, rhs.y)
        &&& divides(self.z, rhs.z)
        &&& divides(self.w, rhs.w)
    }

    open spec fn div_spec(self, rhs: IVec4) -> IVec4 {
        IVec4 {
            x: quotient(self.x, rhs.x),
            y: quotient(self.y, rhs.y),
            z: quotient(self.z, rhs.z),
            w: quotient(self.w, rhs.w),
        }
    }
}

impl core::ops::Mul<i32> for IVec4 {
    type Output = IVec4;

    /// Every component times `rhs`. No component may overflow.
    fn mul(self, rhs: i32) -> (result: IVec4) {
        IVec4 { x: self.x * rhs, y: self.y * rhs, z: self.z * rhs, w: self.w * rhs }
    }
}

impl MulSpecImpl<i32> for IVec4 {
    open spec fn obeys_mul_spec() -> bool {
        true
    }

    /// Whether the operation is defined on these operands.
    open spec fn mul_req(self, rhs: i32) -> bool {
        &&& i32::MIN <= self.x * rhs <= i32::MAX
        &&& i32::MIN <= self.y * rhs <= i32::MAX
        &&& i32::MIN <= self.z * rhs <= i32::MAX
        &&& i32::MIN <= self.w * rhs <= i32::MAX
    }

    open spec fn mul_spec(self, rhs: i32) -> IVec4 {
        IVec4 {
            x: (self.x * rhs) as i32,
            y: (self.y * rhs) as i32,
            z: (self.z * rhs) as i32,
            w: (self.w * rhs) as i32,
        }
    }
}

impl core::ops::Div<i32> for IVec4 {
    type Output = IVec4;

    /// Every component divided by `rhs`, rounded toward zero. `rhs` may not be 0,
    /// and no component may overflow.
    fn div(self, rhs: i32) -> (result: IVec4) {
        IVec4 { x: self.x / rhs, y: self.y / rhs, z: self.z / rhs, w: self.w / rhs }
    }
}

impl DivSpecImpl<i32> for IVec4 {
    open spec fn obeys_div_spec() -> bool {
        true
    }

    /// Whether the operation is defined on these operands.
    open spec fn div_req(self, rhs: i32) -> bool {
        &&& divides(self.x, rhs)
        &&& divides(self.y, rhs)
        &&& divides(self.z, rhs)
        &&& divides(self.w, rhs)
    }

    open spec fn div_spec(self, rhs: i32) -> IVec4 {
        IVec4 {
            x: quotient(self.x, rhs),
            y: quotient(self.y, rhs),
            z: quotient(self.z, rhs),
            w: quotient(self.w, rhs),
        }
    }
}

impl core::ops::Neg for IVec4 {
    type Output = IVec4;

    /// The vector with every component negated. No component may be the least
    /// value of its type.
    fn neg(self) -> (result: IVec4) {
        IVec4 { x: -self.x, y: -self.y, z: -self.z, w: -self.w }
    }
}

impl NegSpecImpl for IVec4 {
    open spec fn obeys_neg_spec() -> bool {
        true
    }

    open spec fn neg_req(self) -> bool {
        &&& self.x != i32::MIN
        &&& self.y != i32::MIN
        &&& self.z != i32::MIN
        &&& self.w != i32::MIN
    }

    open spec fn neg_spec(self) -> IVec4 {
        IVec4 { x: (-self.x) as i32, y: (-self.y) as i32, z: (-self.z) as i32, w: (-self.w) as i32 }
    }
}

impl core::ops::AddAssign<IVec4> for IVec4 {
    /// Adds `rhs`, component by component. No component may overflow.
    fn add_assign(&mut self, rhs: IVec4)
        requires
            i32::MIN <= old(self).x + rhs.x <= i32::MAX,
            i32::MIN <= old(self).y + rhs.y <= i32::MAX,
            i32::MIN <= old(self).z + rhs.z <= i32::MAX,
            i32::MIN <= old(self).w + rhs.w <= i32::MAX,
        ensures
            final(self).x == old(self).x + rhs.x,
            final(self).y == old(self).y + rhs.y,
            final(self).z == old(self).z + rhs.z,
            final(self).w == old(self).w + rhs.w,
    {
        self.x = self.x + rhs.x;
        self.y = self.y + rhs.y;
        self.z = self.z + rhs.z;
        self.w = self.w + rhs.w;
    }
}

impl core::ops::SubAssign<IVec4> for IVec4 {
    /// Subtracts `rhs`, component by component. No component may overflow.
    fn sub_assign(&mut self, rhs: IVec4)
        requires
            i32::MIN <= old(self).x - rhs.x <= i32::MAX,
            i32::MIN <= old(self).y - rhs.y <= i32::MAX,
            i32::MIN <= old(self).z - rhs.z <= i32::MAX,
            i32::MIN <= old(self).w - rhs.w <= i32::MAX,
        ensures
            final(self).x == old(self).x - rhs.x,
            final(self).y == old(self).y - rhs.y,
            final(self).z == old(self).z - rhs.z,
            final(self).w == old(self).w - rhs.w,
    {
        self.x = self.x - rhs.x;
        self.y = self.y - rhs.y;
        self.z = self.z - rhs.z;
        self.w = self.w - rhs.w;
    }
}

impl core::ops::MulAssign<IVec4> for IVec4 {
    /// Multiplies by `rhs`, component by component. No component may overflow.
    fn mul_assign(&mut self, rhs: IVec4)
        requires
            i32::MIN <= old(self).x * rhs.x <= i32::MAX,
            i32::MIN <= old(self).y * rhs.y <= i32::MAX,
            i32::MIN <= old(self).z * rhs.z <= i32::MAX,
            i32::MIN <= old(self).w * rhs.w <= i32::MAX,
        ensures
            final(self).x == old(self).x * rhs.x,
            final(self).y == old(self).y * rhs.y,
            final(self).z == old(self).z * rhs.z,
            final(self).w == old(self).w * rhs.w,
    {
        self.x = self.x * rhs.x;
        self.y = self.y * rhs.y;
        self.z = self.z * rhs.z;
        self.w = self.w * rhs.w;
    }
}

impl core::ops::DivAssign<IVec4> for IVec4 {
    /// Divides by `rhs`, component by component, rounding toward zero. No divisor
    /// may be 0, and no component may overflow.
    fn div_assign(&mut self, rhs: IVec4)
        requires
            divides(old(self).x, rhs.x),
            divides(old(self).y, rhs.y),
            divides(old(self).z, rhs.z),
            divides(old(self).w, rhs.w),
        ensures
            final(self).x == quotient(old(self).x, rhs.x),
            final(self).y == quotient(old(self).y, rhs.y),
            final(self).z == quotient(old(self).z, rhs.z),
            final(self).w == quotient(old(self).w, rhs.w),
    {
        self.x = self.x / rhs.x;
        self.y = self.y / rhs.y;
        self.z = self.z / rhs.z;
        self.w = self.w / rhs.w;
    }
}

impl core::ops::MulAssign<i32> for IVec4 {
    /// Multiplies every component by `rhs`. No component may overflow.
    fn mul_assign(&mut self, rhs: i32)
        requires
            i32::MIN <= old(self).x * rhs <= i32::MAX,
            i32::MIN <= old(self).y * rhs <= i32::MAX,
            i32::MIN <= old(self).z * rhs <= i32::MAX,
            i32::MIN <= old(self).w * rhs <= i32::MAX,
        ensures
            final(self).x == old(self).x * rhs,
            final(self).y == old(self).y * rhs,
            final(self).z == old(self).z * rhs,
            final(self).w == old(self).w * rhs,
    {
        self.x = self.x * rhs;
        self.y = self.y * rhs;
        self.z = self.z * rhs;
        self.w = self.w * rhs;
    }
}

impl core::ops::DivAssign<i32> for IVec4 {
    /// Divides every component by `rhs`, rounding toward zero. `rhs` may not be
    /// 0, and no component may overflow.
    fn div_assign(&mut self, rhs: i32)
        requires
            divides(old(self).x, rhs),
            divides(old(self).y, rhs),
            divides(old(self).z, rhs),
            divides(old(self).w, rhs),
        ensures
            final(self).x == quotient(old(self).x, rhs),
            final(self).y == quotient(old(self).y, rhs),
            final(self).z == quotient(old(self).z, rhs),
            final(self).w == quotient(old(self).w, rhs),
    {
        self.x = self.x / rhs;
        self.y = self.y / rhs;
        self.z = self.z / rhs;
        self.w = self.w / rhs;
    }
}

impl IVec4 {
    pub fn new(x: i32, y: i32, z: i32, w: i32) -> (v: IVec4)
        ensures
            v == (IVec4 { x, y, z, w }),
    {
        IVec4 { x, y, z, w }
    }

    /// The components in order.
    pub fn as_array(&self) -> (a: [i32; 4])
        ensures
            a@ == seq![self.x, self.y, self.z, self.w],
    {
        [self.x, self.y, self.z, self.w]
    }
}

/// Shorthand for `IVec4::new`.
pub fn ivec4(x: i32, y: i32, z: i32, w: i32) -> (v: IVec4)
    ensures
        v == (IVec4 { x, y, z, w }),
{
    IVec4::new(x, y, z, w)
}

} // verus!
