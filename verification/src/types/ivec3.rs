//! Three signed 32-bit components, `x`, `y`, `z`.

use vstd::prelude::*;
use vstd::std_specs::ops::{AddSpecImpl, DivSpecImpl, MulSpecImpl, NegSpecImpl, SubSpecImpl};
use crate::types::arith::{divides, quotient};

verus! {

/// Three signed 32-bit components, `x`, `y`, `z`.
#[derive(Debug, Clone, Copy, PartialEq, Eq, Structural, Hash)]
pub struct IVec3 {
    pub x: i32,
    pub y: i32,
    pub z: i32,
}

impl core::ops::Add<IVec3> for IVec3 {
    type Output = IVec3;

    /// The sum, component by component. No component may overflow.
    fn add(self, rhs: IVec3) -> (result: IVec3) {
        IVec3 { x: self.x + rhs.x, y: self.y + rhs.y, z: self.z + rhs.z }
    }
}

impl AddSpecImpl<IVec3> for IVec3 {
    open spec fn obeys_add_spec() -> bool {
        true
    }

    /// Whether the operation is defined on these operands.
    open spec fn add_req(self, rhs: IVec3) -> bool {
        &&& i32::MIN <= self.x + rhs.x <= i32::MAX
        &&& i32::MIN <= self.y + rhs.y <= i32::MAX
        &&& i32::MIN <= self.z + rhs.z <= i32::MAX
    }

    open spec fn add_spec(self, rhs: IVec3) -> IVec3 {
        IVec3 { x: (self.x + rhs.x) as i32, y: (self.y + rhs.y) as i32, z: (self.z + rhs.z) as i32 }
    }
}

impl core::ops::Sub<IVec3> for IVec3 {
    type Output = IVec3;

    /// The difference, component by component. No component may overflow.
    fn sub(self, rhs: IVec3) -> (result: IVec3) {
        IVec3 { x: self.x - rhs.x, y: self.y - rhs.y, z: self.z - rhs.z }
    }
}

impl SubSpecImpl<IVec3> for IVec3 {
    open spec fn obeys_sub_spec() -> bool {
        true
    }

    /// Whether the operation is defined on these operands.
    open spec fn sub_req(self, rhs: IVec3) -> bool {
        &&& i32::MIN <= self.x - rhs.x <= i32::MAX
        &&& i32::MIN <= self.y - rhs.y <= i32::MAX
        &&& i32::MIN <= self.z - rhs.z <= i32::MAX
    }

    open spec fn sub_spec(self, rhs: IVec3) -> IVec3 {
        IVec3 { x: (self.x - rhs.x) as i32, y: (self.y - rhs.y) as i32, z: (self.z - rhs.z) as i32 }
    }
}

impl core::ops::Mul<IVec3> for IVec3 {
    type Output = IVec3;

    /// The product, component by component. No component may overflow.
    fn mul(self, rhs: IVec3) -> (result: IVec3) {
        IVec3 { x: self.x * rhs.x, y: self.y * rhs.y, z: self.z * rhs.z }
    }
}

impl MulSpecImpl<IVec3> for IVec3 {
    open spec fn obeys_mul_spec() -> bool {
        true
    }

    /// Whether the operation is defined on these operands.
    open spec fn mul_req(self, rhs: IVec3) -> bool {
        &&& i32::MIN <= self.x * rhs.x <= i32::MAX
        &&& i32::MIN <= self.y * rhs.y <= i32::MAX
        &&& i32::MIN <= self.z * rhs.z <= i32::MAX
    }

    open spec fn mul_spec(self, rhs: IVec3) -> IVec3 {
        IVec3 { x: (self.x * rhs.x) as i32, y: (self.y * rhs.y) as i32, z: (self.z * rhs.z) as i32 }
    }
}

impl core::ops::Div<IVec3> for IVec3 {
    type Output = IVec3;

    /// The quotient, component by component, rounded toward zero. No divisor may
    /// be 0, and no component may overflow.
    fn div(self, rhs: IVec3) -> (result: IVec3) {
        IVec3 { x: self.x / rhs.x, y: self.y / rhs.y, z: self.z / rhs.z }
    }
}

impl DivSpecImpl<IVec3> for IVec3 {
    open spec fn obeys_div_spec() -> bool {
        true
    }

    /// Whether the operation is defined on these operands.
    open spec fn div_req(self, rhs: IVec3) -> bool {
        &&& divides(self.x, rhs.x)
        &&& divides(self.y, rhs.y)
        &&& divides(self.z, rhs.z)
    }

    open spec fn div_spec(self, rhs: IVec3) -> IVec3 {
        IVec3 { x: quotient(self.x, rhs.x), y: quotient(self.y, rhs.y), z: quotient(self.z, rhs.z) }
    }
}

impl core::ops::Mul<i32> for IVec3 {
    type Output = IVec3;

    /// Every component times `rhs`. No component may overflow.
    fn mul(self, rhs: i32) -> (result: IVec3) {
        IVec3 { x: self.x * rhs, y: self.y * rhs, z: self.z * rhs }
    }
}

impl MulSpecImpl<i32> for IVec3 {
    open spec fn obeys_mul_spec() -> bool {
        true
    }

    /// Whether the operation is defined on these operands.
    open spec fn mul_req(self, rhs: i32) -> bool {
        &&& i32::MIN <= self.x * rhs <= i32::MAX
        &&& i32::MIN <= self.y * rhs <= i32::MAX
        &&& i32::MIN <= self.z * rhs <= i32::MAX
    }

    open spec fn mul_spec(self, rhs: i32) -> IVec3 {
        IVec3 { x: (self.x * rhs) as i32, y: (self.y * rhs) as i32, z: (self.z * rhs) as i32 }
    }
}

impl core::ops::Div<i32> for IVec3 {
    type Output = IVec3;

    /// Every component divided by `rhs`, rounded toward zero. `rhs` may not be 0,
    /// and no component may overflow.
    fn div(self, rhs: i32) -> (result: IVec3) {
        IVec3 { x: self.x / rhs, y: self.y / rhs, z: self.z / rhs }
    }
}

impl DivSpecImpl<i32> for IVec3 {
    open spec fn obeys_div_spec() -> bool {
        true
    }

    /// Whether the operation is defined on these operands.
    open spec fn div_req(self, rhs: i32) -> bool {
        &&& divides(self.x, rhs)
        &&& divides(self.y, rhs)
        &&& divides(self.z, rhs)
    }

    open spec fn div_spec(self, rhs: i32) -> IVec3 {
        IVec3 { x: quotient(self.x, rhs), y: quotient(self.y, rhs), z: quotient(self.z, rhs) }
    }
}

impl core::ops::Neg for IVec3 {
    type Output = IVec3;

    /// The vector with every component negated. No component may be the least
    /// value of its type.
    fn neg(self) -> (result: IVec3) {
        IVec3 { x: -self.x, y: -self.y, z: -self.z }
    }
}

impl NegSpecImpl for IVec3 {
    open spec fn obeys_neg_spec() -> bool {
        true
    }

    open spec fn neg_req(self) -> bool {
        &&& self.x != i32::MIN
        &&& self.y != i32::MIN
        &&& self.z != i32::MIN
    }

    open spec fn neg_spec(self) -> IVec3 {
        IVec3 { x: (-self.x) as i32, y: (-self.y) as i32, z: (-self.z) as i32 }
    }
}

impl core::ops::AddAssign<IVec3> for IVec3 {
    /// Adds `rhs`, component by component. No component may overflow.
    fn add_assign(&mut self, rhs: IVec3)
        requires
            i32::MIN <= old(self).x + rhs.x <= i32::MAX,
            i32::MIN <= old(self).y + rhs.y <= i32::MAX,
            i32::MIN <= old(self).z + rhs.z <= i32::MAX,
        ensures
            final(self).x == old(self).x + rhs.x,
            final(self).y == old(self).y + rhs.y,
            final(self).z == old(self).z + rhs.z,
    {
        self.x = self.x + rhs.x;
        self.y = self.y + rhs.y;
        self.z = self.z + rhs.z;
    }
}

impl core::ops::SubAssign<IVec3> for IVec3 {
    /// Subtracts `rhs`, component by component. No component may overflow.
    fn sub_assign(&mut self, rhs: IVec3)
        requires
            i32::MIN <= old(self).x - rhs.x <= i32::MAX,
            i32::MIN <= old(self).y - rhs.y <= i32::MAX,
            i32::MIN <= old(self).z - rhs.z <= i32::MAX,
        ensures
            final(self).x == old(self).x - rhs.x,
            final(self).y == old(self).y - rhs.y,
            final(self).z == old(self).z - rhs.z,
    {
        self.x = self.x - rhs.x;
        self.y = self.y - rhs.y;
        self.z = self.z - rhs.z;
    }
}

impl core::ops::MulAssign<IVec3> for IVec3 {
    /// Multiplies by `rhs`, component by component. No component may overflow.
    fn mul_assign(&mut self, rhs: IVec3)
        requires
            i32::MIN <= old(self).x * rhs.x <= i32::MAX,
            i32::MIN <= old(self).y * rhs.y <= i32::MAX,
            i32::MIN <= old(self).z * rhs.z <= i32::MAX,
        ensures
            final(self).x == old(self).x * rhs.x,
            final(self).y == old(self).y * rhs.y,
            final(self).z == old(self).z * rhs.z,
    {
        self.x = self.x * rhs.x;
        self.y = self.y * rhs.y;
        self.z = self.z * rhs.z;
    }
}

impl core::ops::DivAssign<IVec3> for IVec3 {
    /// Divides by `rhs`, component by component, rounding toward zero. No divisor
    /// may be 0, and no component may overflow.
    fn div_assign(&mut self, rhs: IVec3)
        requires
            divides(old(self).x, rhs.x),
            divides(old(self).y, rhs.y),
            divides(old(self).z, rhs.z),
        ensures
            final(self).x == quotient(old(self).x, rhs.x),
            final(self).y == quotient(old(self).y, rhs.y),
            final(self).z == quotient(old(self).z, rhs.z),
    {
        self.x = self.x / rhs.x;
        self.y = self.y / rhs.y;
        self.z = self.z / rhs.z;
    }
}

impl core::ops::MulAssign<i32> for IVec3 {
    /// Multiplies every component by `rhs`. No component may overflow.
    fn mul_assign(&mut self, rhs: i32)
        requires
            i32::MIN <= old(self).x * rhs <= i32::MAX,
            i32::MIN <= old(self).y * rhs <= i32::MAX,
            i32::MIN <= old(self).z * rhs <= i32::MAX,
        ensures
            final(self).x == old(self).x * rhs,
            final(self).y == old(self).y * rhs,
            final(self).z == old(self).z * rhs,
    {
        self.x = self.x * rhs;
        self.y = self.y * rhs;
        self.z = self.z * rhs;
    }
}

impl core::ops::DivAssign<i32> for IVec3 {
    /// Divides every component by `rhs`, rounding toward zero. `rhs` may not be
    /// 0, and no component may overflow.
    fn div_assign(&mut self, rhs: i32)
        requires
            divides(old(self).x, rhs),
            divides(old(self).y, rhs),
            divides(old(self).z, rhs),
        ensures
            final(self).x == quotient(old(self).x, rhs),
            final(self).y == quotient(old(self).y, rhs),
            final(self).z == quotient(old(self).z, rhs),
    {
        self.x = self.x / rhs;
        self.y = self.y / rhs;
        self.z = self.z / rhs;
    }
}

impl IVec3 {
    pub fn new(x: i32, y: i32, z: i32) -> (v: IVec3)
        ensures
            v == (IVec3 { x, y, z }),
    {
        IVec3 { x, y, z }
    }

    /// The components in order.
    pub fn as_array(&self) -> (a: [i32; 3])
        ensures
            a@ == seq![self.x, self.y, self.z],
    {
        [self.x, self.y, self.z]
    }
}

/// Shorthand for `IVec3::new`.
pub fn ivec3(x: i32, y: i32, z: i32) -> (v: IVec3)
    ensures
        v == (IVec3 { x, y, z }),
{
    IVec3::new(x, y, z)
}

} // verus!
