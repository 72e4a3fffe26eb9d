//! A second dining room, showing a re-exported hosting function.

pub mod hosting;

pub use self::hosting::add_to_waitlist;

use vstd::prelude::*;

verus! {

/// Joins the waitlist three times.
pub fn eat_at_restaurant() {
    hosting::add_to_waitlist();
    hosting::add_to_waitlist();
    hosting::add_to_waitlist();
}

} // verus!
