//! Generic points and pairs, and the largest element of a slice.

use core::cmp::Ordering;
use vstd::laws_cmp::obeys_partial_cmp_spec_properties;
use vstd::prelude::*;
use vstd::std_specs::cmp::PartialOrdSpec;

verus! {

pub struct PointXY<T, U> {
    pub x: T,
    pub y: U,
}

impl<T, U> PointXY<T, U> {
    /// A point made of this point's `x` and the other point's `y`.
    pub fn mixup<V, W>(self, other: PointXY<V, W>) -> (r: PointXY<T, W>)
        ensures
            r.x == self.x,
            r.y == other.y,
    {
        PointXY { x: self.x, y: other.y }
    }
}

pub struct Point<T> {
    pub x: T,
    pub y: T,
}

impl<T> Point<T> {
    /// Borrows the point's `x` coordinate.
    pub fn x(&self) -> (r: &T)
        ensures
            *r == self.x,
    {
        &self.x
    }
}

pub struct Pair<T> {
    pub x: T,
    pub y: T,
}

impl<T> Pair<T> {
    /// Wraps two values as a pair.
    pub fn new(x: T, y: T) -> (r: Self)
        ensures
            r.x == x,
            r.y == y,
    {
        Self { x, y }
    }
}

/// The largest element of a non-empty slice. The result is always one of the
/// elements; when the type's comparison obeys its specification and orders
/// values consistently, no element compares greater than the result.
pub fn largest<T: Copy + PartialOrd>(list: &[T]) -> (r: T)
    requires
        list@.len() > 0,
    ensures
        exists|i: int| 0 <= i < list@.len() && r == list@[i],
        (T::obeys_partial_cmp_spec() && obeys_partial_cmp_spec_properties::<T>()) ==> forall|
            i: int,
        |
            0 <= i < list@.len() ==> (#[trigger] list@[i].partial_cmp_spec(&r)) != Some(
                Ordering::Greater,
            ),
{
    let mut largest_val: T = list[0];
    let mut k: usize = 1;
    proof {
        if T::obeys_partial_cmp_spec() && obeys_partial_cmp_spec_properties::<T>() {
            reveal(obeys_partial_cmp_spec_properties);
            assert(list@[0].partial_cmp_spec(&largest_val) != Some(Ordering::Greater));
        }
    }
    while k < list.len()
        invariant
            1 <= k <= list@.len(),
            exists|i: int| 0 <= i < list@.len() && largest_val == list@[i],
            (T::obeys_partial_cmp_spec() && obeys_partial_cmp_spec_properties::<T>()) ==> forall|
                i: int,
            |
                0 <= i < k ==> (#[trigger] list@[i].partial_cmp_spec(&largest_val)) != Some(
                    Ordering::Greater,
                ),
        decreases list@.len() - k,
    {
        let item = list[k];
        if item > largest_val {
            proof {
                if T::obeys_partial_cmp_spec() && obeys_partial_cmp_spec_properties::<T>() {
                    reveal(obeys_partial_cmp_spec_properties);
                    assert(forall|i: int|
                        0 <= i < k ==> (#[trigger] list@[i].partial_cmp_spec(&item)) != Some(
                            Ordering::Greater,
                        ));
                }
            }
            largest_val = item;
        }
        k += 1;
    }
    largest_val
}

} // verus!
