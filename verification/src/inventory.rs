//! A small shirt inventory and its giveaway rule.

use vstd::prelude::*;

verus! {

#[derive(Debug, PartialEq, Eq, Copy, Clone, Structural)]
pub enum ShirtColor {
    Red,
    Blue,
}

pub struct Inventory {
    shirts: Vec<ShirtColor>,
    num_red_shirts: i32,
    num_blue_shirts: i32,
}

impl Inventory {
    /// The shirts on display, as seen by specifications.
    pub closed spec fn spec_shirts(self) -> Seq<ShirtColor> {
        self.shirts@
    }

    /// The stock count of one colour.
    pub closed spec fn spec_count(self, color: ShirtColor) -> int {
        match color {
            ShirtColor::Red => self.num_red_shirts as int,
            ShirtColor::Blue => self.num_blue_shirts as int,
        }
    }

    /// Counts are non-negative and their total fits the counter type.
    pub open spec fn wf(self) -> bool {
        &&& 0 <= self.spec_count(ShirtColor::Red)
        &&& 0 <= self.spec_count(ShirtColor::Blue)
        &&& self.spec_count(ShirtColor::Red) + self.spec_count(ShirtColor::Blue) <= i32::MAX
    }

    /// How many shirts are left in stock, over both colours.
    pub fn remaining(&self) -> (total: i32)
        requires
            self.wf(),
        ensures
            total == self.spec_count(ShirtColor::Red) + self.spec_count(ShirtColor::Blue),
    {
        self.num_blue_shirts + self.num_red_shirts
    }

    #[allow(dead_code)]
    fn increment_inventory(&mut self, color: ShirtColor)
        requires
            old(self).wf(),
            old(self).spec_count(ShirtColor::Red) + old(self).spec_count(ShirtColor::Blue)
                < i32::MAX,
        ensures
            final(self).wf(),
            final(self).spec_count(color) == old(self).spec_count(color) + 1,
            final(self).spec_count(other_color(color)) == old(self).spec_count(
                other_color(color),
            ),
            final(self).spec_shirts() == old(self).spec_shirts(),
    {
        match color {
            ShirtColor::Red => {
                self.num_red_shirts = self.num_red_shirts + 1;
            },
            ShirtColor::Blue => {
                self.num_blue_shirts = self.num_blue_shirts + 1;
            },
        }
    }

    fn decrement_inventory(&mut self, color: ShirtColor)
        requires
            old(self).wf(),
            old(self).spec_count(color) >= 1,
        ensures
            final(self).wf(),
            final(self).spec_count(color) == old(self).spec_count(color) - 1,
            final(self).spec_count(other_color(color)) == old(self).spec_count(
                other_color(color),
            ),
            final(self).spec_shirts() == old(self).spec_shirts(),
    {
        match color {
            ShirtColor::Red => {
                self.num_red_shirts = self.num_red_shirts - 1;
            },
            ShirtColor::Blue => {
                self.num_blue_shirts = self.num_blue_shirts - 1;
            },
        }
    }

    /// Hand out a shirt: the preferred colour when one is named, otherwise
    /// the colour with more stock; the handed-out colour's count drops by
    /// one.
    pub fn giveaway(&mut self, user_preference: Option<ShirtColor>) -> (given: ShirtColor)
        requires
            old(self).wf(),
            match user_preference {
                Some(color) => old(self).spec_count(color) >= 1,
                None => old(self).spec_count(ShirtColor::Red) + old(self).spec_count(
                    ShirtColor::Blue,
                ) >= 1,
            },
        ensures
            final(self).wf(),
            given == match user_preference {
                Some(color) => color,
                None => old(self).spec_most_stocked(),
            },
            final(self).spec_count(given) == old(self).spec_count(given) - 1,
            final(self).spec_count(other_color(given)) == old(self).spec_count(
                other_color(given),
            ),
            final(self).spec_shirts() == old(self).spec_shirts(),
    {
        match user_preference {
            None => {
                let c = self.most_stocked();
                self.decrement_inventory(c);
                c
            },
            Some(c) => {
                self.decrement_inventory(c);
                c
            },
        }
    }

    /// The colour with the larger stock; blue wins a tie.
    pub closed spec fn spec_most_stocked(self) -> ShirtColor {
        if self.num_red_shirts > self.num_blue_shirts {
            ShirtColor::Red
        } else {
            ShirtColor::Blue
        }
    }

    pub fn most_stocked(&self) -> (color: ShirtColor)
        ensures
            color == self.spec_most_stocked(),
    {
        if self.num_red_shirts > self.num_blue_shirts {
            ShirtColor::Red
        } else {
            ShirtColor::Blue
        }
    }
}

/// The colour that is not `color`.
pub open spec fn other_color(color: ShirtColor) -> ShirtColor {
    match color {
        ShirtColor::Red => ShirtColor::Blue,
        ShirtColor::Blue => ShirtColor::Red,
    }
}

/// The store's sample stock: one red and two blue shirts on display.
pub fn get_inventory() -> (inventory: Inventory)
    ensures
        inventory.wf(),
        inventory.spec_shirts() == seq![ShirtColor::Blue, ShirtColor::Red, ShirtColor::Blue],
        inventory.spec_count(ShirtColor::Red) == 1,
        inventory.spec_count(ShirtColor::Blue) == 2,
{
    let inventory = Inventory {
        shirts: vec![ShirtColor::Blue, ShirtColor::Red, ShirtColor::Blue],
        num_red_shirts: 1,
        num_blue_shirts: 2,
    };
    proof {
        assert(inventory.spec_shirts() =~= seq![
            ShirtColor::Blue,
            ShirtColor::Red,
            ShirtColor::Blue,
        ]);
    }
    inventory
}

} // verus!
