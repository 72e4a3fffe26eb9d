//! A counter that yields the numbers one through five, one per call.

use vstd::prelude::*;

verus! {

pub struct Counter {
    pub count: u32,
}

impl Counter {
    /// A counter that has not yielded anything yet.
    pub fn new() -> (r: Counter)
        ensures
            r.count == 0,
    {
        Counter { count: 0 }
    }

    /// The next number, or `None` once five numbers have been handed out.
    pub fn next(&mut self) -> (r: Option<u32>)
        ensures
            old(self).count < 5 ==> final(self).count == old(self).count + 1 && r == Some(
                final(self).count,
            ),
            old(self).count >= 5 ==> final(self).count == old(self).count && r is None,
    {
        if self.count < 5 {
            self.count = self.count + 1;
            Some(self.count)
        } else {
            None
        }
    }
}

} // verus!
