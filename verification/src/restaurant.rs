//! A restaurant split into a hosting desk and a back of house, with a public
//! entry point that orders breakfast.

pub mod back_of_house;
pub mod hosting;

use vstd::prelude::*;
use vstd::string::StringExecFns;

verus! {

/// Orders a summer breakfast, changes the toast, picks two appetizers, and
/// joins the waitlist twice.
pub fn eat_at_restaurant() {
    let mut meal = back_of_house::Breakfast::summer("Rye");
    meal.set_toast(String::from_str("Wheat"));

    let mut line = String::from_str("I'd like ");
    line.append(meal.toast().as_str());
    line.append(" toast please");
    crate::console::print_line(line.as_str());

    let _order1 = back_of_house::Appetizer::Soup;
    let _order2 = back_of_house::Appetizer::Salad;

    crate::restaurant::hosting::add_to_waitlist();
    hosting::add_to_waitlist();
}

pub(crate) fn serve_order() {
}

} // verus!
