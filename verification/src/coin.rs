//! Coins and their value in cents.

use vstd::prelude::*;

verus! {

#[derive(Debug, Clone, PartialEq, Eq)]
pub enum UsState {
    Alabama,
    Alaska,
    Unknown,
}

#[derive(Debug, Clone, PartialEq, Eq)]
pub enum Coin {
    Penny,
    Nickel,
    Dime,
    Quarter(UsState),
}

/// Each coin's value in cents; a quarter is worth the same whatever state
/// it shows.
pub open spec fn spec_value_in_cents(coin: Coin) -> u8 {
    match coin {
        Coin::Penny => 1,
        Coin::Nickel => 5,
        Coin::Dime => 10,
        Coin::Quarter(_) => 25,
    }
}

pub fn value_in_cents(coin: Coin) -> (cents: u8)
    ensures
        cents == spec_value_in_cents(coin),
{
    match coin {
        Coin::Penny => 1,
        Coin::Nickel => 5,
        Coin::Dime => 10,
        Coin::Quarter(_) => 25,
    }
}

} // verus!
