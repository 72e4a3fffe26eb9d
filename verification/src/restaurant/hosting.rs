//! The hosting desk.

use vstd::prelude::*;

verus! {

/// Puts the party on the waitlist.
pub fn add_to_waitlist() {
}

} // verus!
