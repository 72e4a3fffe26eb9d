//! Functions that hand `String` values around: giving ownership away, taking
//! and returning it, and growing a string through a mutable reference.

use vstd::prelude::*;
use vstd::string::StringExecFns;
use vstd::utf8::encode_utf8;

verus! {

/// Allocates a fresh string and hands it to the caller.
pub fn gives_ownership() -> (r: String)
    ensures
        r@ == "hello"@,
{
    let some_string = String::from_str("hello");
    some_string
}

/// Takes ownership of a string and gives it straight back.
pub fn takes_and_gives_back(a_string: String) -> (r: String)
    ensures
        r == a_string,
{
    a_string
}

/// The length, in bytes, of the borrowed string.
pub fn calculate_length(s: &String) -> (l: usize)
    ensures
        l == encode_utf8(s@).len() as usize,
{
    s.as_str().len()
}

/// Appends ", world" to the string behind the mutable reference.
pub fn change(some_string: &mut String)
    ensures
        final(some_string)@ == old(some_string)@ + ", world"@,
{
    some_string.append(", world");
}

} // verus!
