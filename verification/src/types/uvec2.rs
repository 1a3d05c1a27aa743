//! Two unsigned 32-bit components, `x` then `y`.

use vstd::prelude::*;
use vstd::std_specs::ops::{AddSpecImpl, DivSpecImpl, MulSpecImpl, SubSpecImpl};
use vstd::string::StringExecFns;
use crate::command::{int_text, pair_text};

verus! {

/// Two unsigned 32-bit components, `x` then `y`.
#[derive(Debug, Clone, Copy, PartialEq, Eq, Structural, Hash)]
pub struct UVec2 {
    pub x: u32,
    pub y: u32,
}

impl core::ops::Add<UVec2> for UVec2 {
    type Output = UVec2;

    /// The sum, component by component. No component may overflow.
    fn add(self, rhs: UVec2) -> (result: UVec2) {
        UVec2 { x: self.x + rhs.x, y: self.y + rhs.y }
    }
}

impl AddSpecImpl<UVec2> for UVec2 {
    open spec fn obeys_add_spec() -> bool {
        true
    }

    /// Whether the operation is defined on these operands.
    open spec fn add_req(self, rhs: UVec2) -> bool {
        &&& u32::MIN <= self.x + rhs.x <= u32::MAX
        &&& u32::MIN <= self.y + rhs.y <= u32::MAX
    }

    open spec fn add_spec(self, rhs: UVec2) -> UVec2 {
        UVec2 { x: (self.x + rhs.x) as u32, y: (self.y + rhs.y) as u32 }
    }
}

impl core::ops::Sub<UVec2> for UVec2 {
    type Output = UVec2;

    /// The difference, component by component, with 0 where it would be negative.
    fn sub(self, rhs: UVec2) -> (result: UVec2) {
        UVec2 {
            x: if self.x >= rhs.x { self.x - rhs.x } else { 0 },
            y: if self.y >= rhs.y { self.y - rhs.y } else { 0 },
        }
    }
}

impl SubSpecImpl<UVec2> for UVec2 {
    open spec fn obeys_sub_spec() -> bool {
        true
    }

    /// Whether the operation is defined on these operands.
    open spec fn sub_req(self, rhs: UVec2) -> bool {
        &&& true
        &&& true
    }

    open spec fn sub_spec(self, rhs: UVec2) -> UVec2 {
        UVec2 {
            x: if self.x >= rhs.x { (self.x - rhs.x) as u32 } else { 0 },
            y: if self.y >= rhs.y { (self.y - rhs.y) as u32 } else { 0 },
        }
    }
}

impl core::ops::Mul<UVec2> for UVec2 {
    type Output = UVec2;

    /// The product, component by component. No component may overflow.
    fn mul(self, rhs: UVec2) -> (result: UVec2) {
        UVec2 { x: self.x * rhs.x, y: self.y * rhs.y }
    }
}

impl MulSpecImpl<UVec2> for UVec2 {
    open spec fn obeys_mul_spec() -> bool {
        true
    }

    /// Whether the operation is defined on these operands.
    open spec fn mul_req(self, rhs: UVec2) -> bool {
        &&& u32::MIN <= self.x * rhs.x <= u32::MAX
        &&& u32::MIN <= self.y * rhs.y <= u32::MAX
    }

    open spec fn mul_spec(self, rhs: UVec2) -> UVec2 {
        UVec2 { x: (self.x * rhs.x) as u32, y: (self.y * rhs.y) as u32 }
    }
}

impl core::ops::Div<UVec2> for UVec2 {
    type Output = UVec2;

    /// The quotient, component by component, rounded down. No divisor may be 0.
    fn div(self, rhs: UVec2) -> (result: UVec2) {
        UVec2 { x: self.x / rhs.x, y: self.y / rhs.y }
    }
}

impl DivSpecImpl<UVec2> for UVec2 {
    open spec fn obeys_div_spec() -> bool {
        true
    }

    /// Whether the operation is defined on these operands.
    open spec fn div_req(self, rhs: UVec2) -> bool {
        &&& rhs.x != 0
        &&& rhs.y != 0
    }

    open spec fn div_spec(self, rhs: UVec2) -> UVec2 {
        UVec2 { x: self.x / rhs.x, y: self.y / rhs.y }
    }
}

impl core::ops::Mul<u32> for UVec2 {
    type Output = UVec2;

    /// Every component times `rhs`. No component may overflow.
    fn mul(self, rhs: u32) -> (result: UVec2) {
        UVec2 { x: self.x * rhs, y: self.y * rhs }
    }
}

impl MulSpecImpl<u32> for UVec2 {
    open spec fn obeys_mul_spec() -> bool {
        true
    }

    /// Whether the operation is defined on these operands.
    open spec fn mul_req(self, rhs: u32) -> bool {
        &&& u32::MIN <= self.x * rhs <= u32::MAX
        &&& u32::MIN <= self.y * rhs <= u32::MAX
    }

    open spec fn mul_spec(self, rhs: u32) -> UVec2 {
        UVec2 { x: (self.x * rhs) as u32, y: (self.y * rhs) as u32 }
    }
}

impl core::ops::Div<u32> for UVec2 {
    type Output = UVec2;

    /// Every component divided by `rhs`, rounded down. `rhs` may not be 0.
    fn div(self, rhs: u32) -> (result: UVec2) {
        UVec2 { x: self.x / rhs, y: self.y / rhs }
    }
}

impl DivSpecImpl<u32> for UVec2 {
    open spec fn obeys_div_spec() -> bool {
        true
    }

    /// Whether the operation is defined on these operands.
    open spec fn div_req(self, rhs: u32) -> bool {
        &&& rhs != 0
        &&& rhs != 0
    }

    open spec fn div_spec(self, rhs: u32) -> UVec2 {
        UVec2 { x: self.x / rhs, y: self.y / rhs }
    }
}

impl core::ops::AddAssign<UVec2> for UVec2 {
    /// Adds `rhs`, component by component. No component may overflow.
    fn add_assign(&mut self, rhs: UVec2)
        requires
            u32::MIN <= old(self).x + rhs.x <= u32::MAX,
            u32::MIN <= old(self).y + rhs.y <= u32::MAX,
        ensures
            final(self).x == old(self).x + rhs.x,
            final(self).y == old(self).y + rhs.y,
    {
        self.x = self.x + rhs.x;
        self.y = self.y + rhs.y;
    }
}

impl core::ops::SubAssign<UVec2> for UVec2 {
    /// Subtracts `rhs`, component by component, with 0 where the difference would be negative.
    fn sub_assign(&mut self, rhs: UVec2)
        ensures
            final(self).x == if old(self).x >= rhs.x { old(self).x - rhs.x } else { 0 },
            final(self).y == if old(self).y >= rhs.y { old(self).y - rhs.y } else { 0 },
    {
        self.x = if self.x >= rhs.x { self.x - rhs.x } else { 0 };
        self.y = if self.y >= rhs.y { self.y - rhs.y } else { 0 };
    }
}

impl core::ops::MulAssign<UVec2> for UVec2 {
    /// Multiplies by `rhs`, component by component. No component may overflow.
    fn mul_assign(&mut self, rhs: UVec2)
        requires
            u32::MIN <= old(self).x * rhs.x <= u32::MAX,
            u32::MIN <= old(self).y * rhs.y <= u32::MAX,
        ensures
            final(self).x == old(self).x * rhs.x,
            final(self).y == old(self).y * rhs.y,
    {
        self.x = self.x * rhs.x;
        self.y = self.y * rhs.y;
    }
}

impl core::ops::DivAssign<UVec2> for UVec2 {
    /// Divides by `rhs`, component by component, rounding down. No divisor may be 0.
    fn div_assign(&mut self, rhs: UVec2)
        requires
            rhs.x != 0,
            rhs.y != 0,
        ensures
            final(self).x == old(self).x / rhs.x,
            final(self).y == old(self).y / rhs.y,
    {
        self.x = self.x / rhs.x;
        self.y = self.y / rhs.y;
    }
}

impl core::ops::MulAssign<u32> for UVec2 {
    /// Multiplies every component by `rhs`. No component may overflow.
    fn mul_assign(&mut self, rhs: u32)
        requires
            u32::MIN <= old(self).x * rhs <= u32::MAX,
            u32::MIN <= old(self).y * rhs <= u32::MAX,
        ensures
            final(self).x == old(self).x * rhs,
            final(self).y == old(self).y * rhs,
    {
        self.x = self.x * rhs;
        self.y = self.y * rhs;
    }
}

impl core::ops::DivAssign<u32> for UVec2 {
    /// Divides every component by `rhs`, rounding down. `rhs` may not be 0.
    fn div_assign(&mut self, rhs: u32)
        requires
            rhs != 0,
        ensures
            final(self).x == old(self).x / rhs,
            final(self).y == old(self).y / rhs,
    {
        self.x = self.x / rhs;
        self.y = self.y / rhs;
    }
}

impl core::ops::Index<usize> for UVec2 {
    type Output = u32;

    /// Component 0 is `x`, component 1 is `y`.
    fn index(&self, index: usize) -> (component: &u32)
        ensures
            *component == (if index == 0 {
                self.x
            } else {
                self.y
            }),
    {
        if index == 0 {
            &self.x
        } else {
            &self.y
        }
    }
}

impl core::ops::IndexMut<usize> for UVec2 {
    /// Component 0 is `x`, component 1 is `y`. What is written through the
    /// reference becomes the component, and the other one stays.
    fn index_mut(&mut self, index: usize) -> (component: &mut u32)
        requires
            index < 2,
        ensures
            index == 0 ==> *component == old(self).x && *final(self) == (UVec2 {
                x: *final(component),
                ..*old(self)
            }),
            index == 1 ==> *component == old(self).y && *final(self) == (UVec2 {
                y: *final(component),
                ..*old(self)
            }),
    {
        if index == 0 {
            &mut self.x
        } else {
            &mut self.y
        }
    }
}

impl vstd::std_specs::core::IndexSpecImpl<usize> for UVec2 {
    /// There are two components.
    open spec fn index_req(&self, index: &usize) -> bool {
        *index < 2
    }
}

impl UVec2 {
    pub fn new(x: u32, y: u32) -> (v: UVec2)
        ensures
            v == (UVec2 { x, y }),
    {
        UVec2 { x, y }
    }

    /// The components in order.
    pub fn as_array(&self) -> (a: [u32; 2])
        ensures
            a@ == seq![self.x, self.y],
    {
        [self.x, self.y]
    }

    /// The vector as a reader sees it: both components in decimal, in
    /// brackets.
    pub fn to_text(&self) -> (text: String)
        ensures
            text@ == pair_text(self.x as int, self.y as int),
    {
        let mut text = String::from_str("(");
        text.append(int_text(self.x as i64).as_str());
        text.append(", ");
        text.append(int_text(self.y as i64).as_str());
        text.append(")");
        text
    }
}

/// Shorthand for `UVec2::new`.
pub fn uvec2(x: u32, y: u32) -> (v: UVec2)
    ensures
        v == (UVec2 { x, y }),
{
    UVec2::new(x, y)
}

} // verus!
