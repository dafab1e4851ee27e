//! A guess bounded to the range the guessing game accepts.

use vstd::prelude::*;

verus! {

/// A number between 1 and 100, the only guesses the game takes.
pub struct Guess {
    value: i32,
}

impl Guess {
    /// The number held.
    pub closed spec fn spec_value(&self) -> i32 {
        self.value
    }

    /// A guess holds a number in the accepted range.
    pub open spec fn wf(&self) -> bool {
        1 <= self.spec_value() <= 100
    }

    /// Wraps a number the game accepts. A number outside 1..=100 is not a
    /// guess at all, so the precondition shuts it out.
    pub fn new(value: i32) -> (g: Guess)
        requires
            1 <= value <= 100,
        ensures
            g.spec_value() == value,
            g.wf(),
    {
        Guess { value }
    }

    /// The number held.
    pub fn value(&self) -> (v: i32)
        ensures
            v == self.spec_value(),
    {
        self.value
    }
}

} // verus!
