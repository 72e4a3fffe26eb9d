//! A free-standing addition helper.

use vstd::prelude::*;

verus! {

/// Returns its argument plus two.
pub fn add_two(a: i32) -> (r: i32)
    requires
        a + 2 <= i32::MAX,
    ensures
        r == a + 2,
{
    a + 2
}

} // verus!
