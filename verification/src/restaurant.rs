//! The back of house: orders and breakfasts.

use vstd::prelude::*;
use vstd::string::StringExecFns;

verus! {

/// Cook a replacement and send it out.
pub fn fix_incorrect_order() {
    cook_order();
    server_order();
}

pub fn cook_order() {
}

fn server_order() {
}

#[derive(Debug, Clone, PartialEq)]
pub enum Appetizer {
    Soup,
    Salad,
}

#[derive(Debug, Clone, PartialEq)]
pub struct Breakfast {
    toast: String,
    seasonal_fruit: String,
}

impl Breakfast {
    /// The chosen toast, as seen by specifications.
    pub closed spec fn spec_toast(self) -> Seq<char> {
        self.toast@
    }

    /// The fruit of the season, as seen by specifications.
    pub closed spec fn spec_fruit(self) -> Seq<char> {
        self.seasonal_fruit@
    }

    /// Swap the toast; the fruit stays whatever the season gave.
    pub fn update_toast(&mut self, new_toast: &str)
        ensures
            final(self).spec_toast() == new_toast@,
            final(self).spec_fruit() == old(self).spec_fruit(),
    {
        self.toast = new_toast.to_owned();
    }

    /// The summer breakfast: the guest picks the toast, the season picks
    /// the fruit.
    pub fn summer(toast: &str) -> (breakfast: Breakfast)
        ensures
            breakfast.spec_toast() == toast@,
            breakfast.spec_fruit() == "peaches"@,
    {
        Breakfast { toast: toast.to_owned(), seasonal_fruit: String::from_str("peaches") }
    }
}

} // verus!
