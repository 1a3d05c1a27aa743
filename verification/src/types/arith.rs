//! Division of signed machine integers.

use vstd::prelude::*;

verus! {

/// Whether `a` can be divided by `b`: `b` is not 0, and the quotient is not
/// the one that has no place in the type, the least value by -1.
pub open spec fn divides(a: i32, b: i32) -> bool {
    b != 0 && !(a == i32::MIN && b == -1)
}

/// The quotient of `a` by `b`, rounded toward zero.
pub open spec fn quotient(a: i32, b: i32) -> i32 {
    if a >= 0 {
        (a / b) as i32
    } else {
        (-((-a) / (b as int))) as i32
    }
}

} // verus!
