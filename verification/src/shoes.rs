//! Shoes, and picking out the ones in a given size.

use vstd::prelude::*;

verus! {

#[derive(Debug, PartialEq)]
pub struct Shoe {
    pub size: u32,
    pub style: String,
}

impl Clone for Shoe {
    fn clone(&self) -> (r: Shoe)
        ensures
            r == *self,
    {
        Shoe { size: self.size, style: self.style.clone() }
    }
}

/// The shoes of `shoes` whose size is `size`, in their original order.
pub open spec fn shoes_of_size(shoes: Seq<Shoe>, size: u32) -> Seq<Shoe>
    decreases shoes.len(),
{
    if shoes.len() == 0 {
        Seq::empty()
    } else if shoes.last().size == size {
        shoes_of_size(shoes.drop_last(), size) + seq![shoes.last()]
    } else {
        shoes_of_size(shoes.drop_last(), size)
    }
}

/// Keeps exactly the shoes of the given size, in order.
pub fn shoes_in_my_size(shoes: Vec<Shoe>, shoe_size: u32) -> (r: Vec<Shoe>)
    ensures
        r@ == shoes_of_size(shoes@, shoe_size),
{
    let mut r: Vec<Shoe> = Vec::new();
    let mut i: usize = 0;
    while i < shoes.len()
        invariant
            i <= shoes@.len(),
            r@ == shoes_of_size(shoes@.take(i as int), shoe_size),
        decreases shoes@.len() - i,
    {
        proof {
            assert(shoes@.take(i + 1).drop_last() =~= shoes@.take(i as int));
            assert(shoes@.take(i + 1).last() == shoes@[i as int]);
        }
        if shoes[i].size == shoe_size {
            r.push(shoes[i].clone());
        }
        i += 1;
    }
    proof {
        assert(shoes@.take(shoes@.len() as int) =~= shoes@);
    }
    r
}

} // verus!
