//! Two signed 32-bit components, `x` then `y`.

use vstd::prelude::*;
use vstd::std_specs::ops::{AddSpecImpl, DivSpecImpl, MulSpecImpl, NegSpecImpl, SubSpecImpl};
use vstd::string::StringExecFns;
use crate::command::{int_text, pair_text};
use crate::types::arith::{divides, quotient};

verus! {

/// Two signed 32-bit components, `x` then `y`.
#[derive(Debug, Clone, Copy, PartialEq, Eq, Structural, Hash)]
pub struct IVec2 {
    pub x: i32,
    pub y: i32,
}

impl core::ops::Add<IVec2> for IVec2 {
    type Output = IVec2;

    /// The sum, component by component. No component may overflow.
    fn add(self, rhs: IVec2) -> (result: IVec2) {
        IVec2 { x: self.x + rhs.x, y: self.y + rhs.y }
    }
}

impl AddSpecImpl<IVec2> for IVec2 {
    open spec fn obeys_add_spec() -> bool {
        true
    }

    /// Whether the operation is defined on these operands.
    open spec fn add_req(self, rhs: IVec2) -> bool {
        &&& i32::MIN <= self.x + rhs.x <= i32::MAX
        &&& i32::MIN <= self.y + rhs.y <= i32::MAX
    }

    open spec fn add_spec(self, rhs: IVec2) -> IVec2 {
        IVec2 { x: (self.x + rhs.x) as i32, y: (self.y + rhs.y) as i32 }
    }
}

impl core::ops::Sub<IVec2> for IVec2 {
    type Output = IVec2;

    /// The difference, component by component. No component may overflow.
    fn sub(self, rhs: IVec2) -> (result: IVec2) {
        IVec2 { x: self.x - rhs.x, y: self.y - rhs.y }
    }
}

impl SubSpecImpl<IVec2> for IVec2 {
    open spec fn obeys_sub_spec() -> bool {
        true
    }

    /// Whether the operation is defined on these operands.
    open spec fn sub_req(self, rhs: IVec2) -> bool {
        &&& i32::MIN <= self.x - rhs.x <= i32::MAX
        &&& i32::MIN <= self.y - rhs.y <= i32::MAX
    }

    open spec fn sub_spec(self, rhs: IVec2) -> IVec2 {
        IVec2 { x: (self.x - rhs.x) as i32, y: (self.y - rhs.y) as i32 }
    }
}

impl core::ops::Mul<IVec2> for IVec2 {
    type Output = IVec2;

    /// The product, component by component. No component may overflow.
    fn mul(self, rhs: IVec2) -> (result: IVec2) {
        IVec2 { x: self.x * rhs.x, y: self.y * rhs.y }
    }
}

impl MulSpecImpl<IVec2> for IVec2 {
    open spec fn obeys_mul_spec() -> bool {
        true
    }

    /// Whether the operation is defined on these operands.
    open spec fn mul_req(self, rhs: IVec2) -> bool {
        &&& i32::MIN <= self.x * rhs.x <= i32::MAX
        &&& i32::MIN <= self.y * rhs.y <= i32::MAX
    }

    open spec fn mul_spec(self, rhs: IVec2) -> IVec2 {
        IVec2 { x: (self.x * rhs.x) as i32, y: (self.y * rhs.y) as i32 }
    }
}

impl core::ops::Div<IVec2> for IVec2 {
    type Output = IVec2;

    /// The quotient, component by component, rounded toward zero. No divisor may
    /// be 0, and no component may overflow.
    fn div(self, rhs: IVec2) -> (result: IVec2) {
        IVec2 { x: self.x / rhs.x, y: self.y / rhs.y }
    }
}

impl DivSpecImpl<IVec2> for IVec2 {
    open spec fn obeys_div_spec() -> bool {
        true
    }

    /// Whether the operation is defined on these operands.
    open spec fn div_req(self, rhs: IVec2) -> bool {
        &&& divides(self.x, rhs.x)
        &&& divides(self.y, rhs.y)
    }

    open spec fn div_spec(self, rhs: IVec2) -> IVec2 {
        IVec2 { x: quotient(self.x, rhs.x), y: quotient(self.y, rhs.y) }
    }
}

impl core::ops::Mul<i32> for IVec2 {
    type Output = IVec2;

    /// Every component times `rhs`. No component may overflow.
    fn mul(self, rhs: i32) -> (result: IVec2) {
        IVec2 { x: self.x * rhs, y: self.y * rhs }
    }
}

impl MulSpecImpl<i32> for IVec2 {
    open spec fn obeys_mul_spec() -> bool {
        true
    }

    /// Whether the operation is defined on these operands.
    open spec fn mul_req(self, rhs: i32) -> bool {
        &&& i32::MIN <= self.x * rhs <= i32::MAX
        &&& i32::MIN <= self.y * rhs <= i32::MAX
    }

    open spec fn mul_spec(self, rhs: i32) -> IVec2 {
        IVec2 { x: (self.x * rhs) as i32, y: (self.y * rhs) as i32 }
    }
}

impl core::ops::Div<i32> for IVec2 {
    type Output = IVec2;

    /// Every component divided by `rhs`, rounded toward zero. `rhs` may not be 0,
    /// and no component may overflow.
    fn div(self, rhs: i32) -> (result: IVec2) {
        IVec2 { x: self.x / rhs, y: self.y / rhs }
    }
}

impl DivSpecImpl<i32> for IVec2 {
    open spec fn obeys_div_spec() -> bool {
        true
    }

    /// Whether the operation is defined on these operands.
    open spec fn div_req(self, rhs: i32) -> bool {
        &&& divides(self.x, rhs)
        &&& divides(self.y, rhs)
    }

    open spec fn div_spec(self, rhs: i32) -> IVec2 {
        IVec2 { x: quotient(self.x, rhs), y: quotient(self.y, rhs) }
    }
}

impl core::ops::Neg for IVec2 {
    type Output = IVec2;

    /// The vector with every component negated. No component may be the least
    /// value of its type.
    fn neg(self) -> (result: IVec2) {
        IVec2 { x: -self.x, y: -self.y }
    }
}

impl NegSpecImpl for IVec2 {
    open spec fn obeys_neg_spec() -> bool {
        true
    }

    open spec fn neg_req(self) -> bool {
        &&& self.x != i32::MIN
        &&& self.y != i32::MIN
    }

    open spec fn neg_spec(self) -> IVec2 {
        IVec2 { x: (-self.x) as i32, y: (-self.y) as i32 }
    }
}

impl core::ops::AddAssign<IVec2> for IVec2 {
    /// Adds `rhs`, component by component. No component may overflow.
    fn add_assign(&mut self, rhs: IVec2)
        requires
            i32::MIN <= old(self).x + rhs.x <= i32::MAX,
            i32::MIN <= old(self).y + rhs.y <= i32::MAX,
        ensures
            final(self).x == old(self).x + rhs.x,
            final(self).y == old(self).y + rhs.y,
    {
        self.x = self.x + rhs.x;
        self.y = self.y + rhs.y;
    }
}

impl core::ops::SubAssign<IVec2> for IVec2 {
    /// Subtracts `rhs`, component by component. No component may overflow.
    fn sub_assign(&mut self, rhs: IVec2)
        requires
            i32::MIN <= old(self).x - rhs.x <= i32::MAX,
            i32::MIN <= old(self).y - rhs.y <= i32::MAX,
        ensures
            final(self).x == old(self).x - rhs.x,
            final(self).y == old(self).y - rhs.y,
    {
        self.x = self.x - rhs.x;
        self.y = self.y - rhs.y;
    }
}

impl core::ops::MulAssign<IVec2> for IVec2 {
    /// Multiplies by `rhs`, component by component. No component may overflow.
    fn mul_assign(&mut self, rhs: IVec2)
        requires
            i32::MIN <= old(self).x * rhs.x <= i32::MAX,
            i32::MIN <= old(self).y * rhs.y <= i32::MAX,
        ensures
            final(self).x == old(self).x * rhs.x,
            final(self).y == old(self).y * rhs.y,
    {
        self.x = self.x * rhs.x;
        self.y = self.y * rhs.y;
    }
}

impl core::ops::DivAssign<IVec2> for IVec2 {
    /// Divides by `rhs`, component by component, rounding toward zero. No divisor
    /// may be 0, and no component may overflow.
    fn div_assign(&mut self, rhs: IVec2)
        requires
            divides(old(self).x, rhs.x),
            divides(old(self).y, rhs.y),
        ensures
            final(self).x == quotient(old(self).x, rhs.x),
            final(self).y == quotient(old(self).y, rhs.y),
    {
        self.x = self.x / rhs.x;
        self.y = self.y / rhs.y;
    }
}

impl core::ops::MulAssign<i32> for IVec2 {
    /// Multiplies every component by `rhs`. No component may overflow.
    fn mul_assign(&mut self, rhs: i32)
        requires
            i32::MIN <= old(self).x * rhs <= i32::MAX,
            i32::MIN <= old(self).y * rhs <= i32::MAX,
        ensures
            final(self).x == old(self).x * rhs,
            final(self).y == old(self).y * rhs,
    {
        self.x = self.x * rhs;
        self.y = self.y * rhs;
    }
}

impl core::ops::DivAssign<i32> for IVec2 {
    /// Divides every component by `rhs`, rounding toward zero. `rhs` may not be
    /// 0, and no component may overflow.
    fn div_assign(&mut self, rhs: i32)
        requires
            divides(old(self).x, rhs),
            divides(old(self).y, rhs),
        ensures
            final(self).x == quotient(old(self).x, rhs),
            final(self).y == quotient(old(self).y, rhs),
    {
        self.x = self.x / rhs;
        self.y = self.y / rhs;
    }
}

impl core::ops::Index<usize> for IVec2 {
    type Output = i32;

    /// Component 0 is `x`, component 1 is `y`.
    fn index(&self, index: usize) -> (component: &i32)
        ensures
            *component == (if index == 0 {
                self.x
            } else {
                self.y
            }),
    {
        if index == 0 {
            &self.x
        } else {
            &self.y
        }
    }
}

impl core::ops::IndexMut<usize> for IVec2 {
    /// Component 0 is `x`, component 1 is `y`. What is written through the
    /// reference becomes the component, and the other one stays.
    fn index_mut(&mut self, index: usize) -> (component: &mut i32)
        requires
            index < 2,
        ensures
            index == 0 ==> *component == old(self).x && *final(self) == (IVec2 {
                x: *final(component),
                ..*old(self)
            }),
            index == 1 ==> *component == old(self).y && *final(self) == (IVec2 {
                y: *final(component),
                ..*old(self)
            }),
    {
        if index == 0 {
            &mut self.x
        } else {
            &mut self.y
        }
    }
}

impl vstd::std_specs::core::IndexSpecImpl<usize> for IVec2 {
    /// There are two components.
    open spec fn index_req(&self, index: &usize) -> bool {
        *index < 2
    }
}

impl IVec2 {
    pub fn new(x: i32, y: i32) -> (v: IVec2)
        ensures
            v == (IVec2 { x, y }),
    {
        IVec2 { x, y }
    }

    /// The components in order.
    pub fn as_array(&self) -> (a: [i32; 2])
        ensures
            a@ == seq![self.x, self.y],
    {
        [self.x, self.y]
    }

    /// The vector as a reader sees it: both components in decimal, in
    /// brackets.
    pub fn to_text(&self) -> (text: String)
        ensures
            text@ == pair_text(self.x as int, self.y as int),
    {
        let mut text = String::from_str("(");
        text.append(int_text(self.x as i64).as_str());
        text.append(", ");
        text.append(int_text(self.y as i64).as_str());
        text.append(")");
        text
    }
}

/// Shorthand for `IVec2::new`.
pub fn ivec2(x: i32, y: i32) -> (v: IVec2)
    ensures
        v == (IVec2 { x, y }),
{
    IVec2::new(x, y)
}

} // verus!
