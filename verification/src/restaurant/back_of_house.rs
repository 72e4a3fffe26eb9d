//! The kitchen: breakfast plates and appetizers.

use vstd::prelude::*;
use vstd::string::StringExecFns;

verus! {

pub struct Breakfast {
    pub toast: String,
    seasonal_fruit: String,
}

#[derive(Debug, Clone, Copy, PartialEq, Eq, Structural)]
pub enum Appetizer {
    Soup,
    Salad,
}

impl Breakfast {
    /// The toast on the plate, as seen by specifications.
    pub closed spec fn toast_spec(&self) -> Seq<char> {
        self.toast@
    }

    /// The fruit that comes with the plate; callers cannot choose it.
    pub closed spec fn seasonal_fruit_spec(&self) -> Seq<char> {
        self.seasonal_fruit@
    }

    /// A summer breakfast: the chosen toast with peaches on the side.
    pub fn summer(toast: &str) -> (r: Breakfast)
        ensures
            r.toast_spec() == toast@,
            r.seasonal_fruit_spec() == "peaches"@,
    {
        Breakfast { toast: String::from_str(toast), seasonal_fruit: String::from_str("peaches") }
    }

    /// Borrows the toast on the plate.
    pub fn toast(&self) -> (r: &String)
        ensures
            r@ == self.toast_spec(),
    {
        &self.toast
    }

    /// Swaps the toast on the plate; the fruit stays as it was.
    pub fn set_toast(&mut self, toast: String)
        ensures
            final(self).toast_spec() == toast@,
            final(self).seasonal_fruit_spec() == old(self).seasonal_fruit_spec(),
    {
        self.toast = toast;
    }
}

fn fix_incorrect_order() {
    cook_order();
    super::serve_order();
}

fn cook_order() {
}

} // verus!
