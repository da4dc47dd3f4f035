//! Small exercises: rectangles that may contain one another, a greeting,
//! and a guess bounded between one and one hundred.

use vstd::prelude::*;
use vstd::string::StringExecFns;

verus! {

#[derive(Debug)]
pub struct Rectangle {
    width: u32,
    height: u32,
}

impl Rectangle {
    /// The width, as seen by specifications.
    pub closed spec fn spec_width(self) -> u32 {
        self.width
    }

    /// The height, as seen by specifications.
    pub closed spec fn spec_height(self) -> u32 {
        self.height
    }

    /// Whether `other` fits strictly inside `self` in both dimensions.
    pub fn can_hold(&self, other: &Rectangle) -> (fits: bool)
        ensures
            fits == (self.spec_width() > other.spec_width() && self.spec_height()
                > other.spec_height()),
    {
        self.width > other.width && self.height > other.height
    }
}

/// Two more than the argument.
pub fn add_two(a: i32) -> (result: i32)
    requires
        a + 2 <= i32::MAX,
    ensures
        result == a + 2,
{
    a + 2
}

/// Greet someone by name.
pub fn greetings(name: &str) -> (greeting: String)
    ensures
        greeting@ == "Hello: "@ + name@,
{
    let mut greeting = String::from_str("Hello: ");
    greeting.append(name);
    greeting
}

/// A guess, valid only between one and one hundred.
pub struct Guess {
    value: i32,
}

impl Guess {
    /// The guessed value, as seen by specifications.
    pub closed spec fn spec_value(self) -> i32 {
        self.value
    }

    /// Wrap a guess; values outside one through one hundred are not
    /// guesses and cannot be wrapped.
    pub fn new(value: i32) -> (guess: Guess)
        requires
            1 <= value <= 100,
        ensures
            guess.spec_value() == value,
    {
        Guess { value }
    }

    pub fn value(&self) -> (value: i32)
        ensures
            value == self.spec_value(),
    {
        self.value
    }
}

/// A fixed pair of rectangles, the first strictly larger than the second.
pub fn get_small_large_rectangle() -> (pair: (Rectangle, Rectangle))
    ensures
        pair.0.spec_width() == 8,
        pair.0.spec_height() == 7,
        pair.1.spec_width() == 5,
        pair.1.spec_height() == 1,
{
    let larger = Rectangle { width: 8, height: 7 };
    let smaller = Rectangle { width: 5, height: 1 };
    (larger, smaller)
}

} // verus!
