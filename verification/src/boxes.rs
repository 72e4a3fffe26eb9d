//! A box of one value with explicit dereferencing.

use vstd::prelude::*;

verus! {

pub struct MyBox<T>(pub T);

impl<T> MyBox<T> {
    /// Puts a value in the box.
    pub fn new(x: T) -> (r: MyBox<T>)
        ensures
            r.0 == x,
    {
        MyBox(x)
    }

    /// Borrows the value inside the box.
    pub fn deref(&self) -> (r: &T)
        ensures
            *r == self.0,
    {
        &self.0
    }
}

} // verus!
