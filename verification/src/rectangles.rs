//! A rectangle with a width and a height, its area, and a containment test.

use vstd::prelude::*;

verus! {

#[derive(Debug, Clone, Copy, PartialEq, Eq, Structural)]
pub struct Rectangle {
    pub width: u32,
    pub height: u32,
}

impl Rectangle {
    /// The area of the rectangle; the product must fit in a `u32`.
    pub fn area(&self) -> (r: u32)
        requires
            self.width * self.height <= u32::MAX,
        ensures
            r == self.width * self.height,
    {
        self.width * self.height
    }

    /// Whether this rectangle is strictly wider and strictly taller than the
    /// other, so that the other fits inside it.
    pub fn can_hold(&self, rect: &Rectangle) -> (r: bool)
        ensures
            r == (self.width > rect.width && self.height > rect.height),
    {
        self.width > rect.width && self.height > rect.height
    }

    /// A square with the given side length.
    pub fn square(size: u32) -> (r: Rectangle)
        ensures
            r.width == size,
            r.height == size,
    {
        Rectangle { height: size, width: size }
    }
}

} // verus!
