//! A greeting builder and a small addition helper.

use vstd::prelude::*;
use vstd::string::StringExecFns;

verus! {

/// "Hello " followed by the name and an exclamation mark.
pub fn greeting(name: &str) -> (r: String)
    ensures
        r@ == "Hello "@ + name@ + "!"@,
{
    let mut r = String::from_str("Hello ");
    r.append(name);
    r.append("!");
    r
}

/// Returns its argument plus two.
pub fn add_two(a: i32) -> (r: i32)
    requires
        a + 2 <= i32::MAX,
    ensures
        r == a + 2,
{
    a + 2
}

} // verus!
