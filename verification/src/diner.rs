//! A third dining room whose hosting desk lives in its own file.

pub mod hosting;

use vstd::prelude::*;

verus! {

/// Joins the waitlist three times.
pub fn eat_at_restaurant() {
    hosting::add_to_waitlist();
    hosting::add_to_waitlist();
    hosting::add_to_waitlist();
}

} // verus!
