//! The number of accepted guesses in a game.

use vstd::prelude::*;

verus! {

/// Counters that go up by one at a time.
pub trait Incrementable {
    /// The counter's current value.
    spec fn tally(&self) -> int;

    /// The counter has room for one more.
    spec fn can_increment(&self) -> bool;

    /// Adds one to the counter.
    fn increment(&mut self)
        requires
            old(self).can_increment(),
        ensures
            final(self).tally() == old(self).tally() + 1,
    ;
}

/// How many guesses have been accepted so far.
#[derive(Debug, PartialEq)]
pub struct GuessCount {
    count: u32,
}

impl View for GuessCount {
    type V = nat;

    closed spec fn view(&self) -> nat {
        self.count as nat
    }
}

impl GuessCount {
    /// A counter at zero.
    pub fn new() -> (r: GuessCount)
        ensures
            r@ == 0,
    {
        GuessCount { count: 0 }
    }

    /// The number of guesses counted.
    pub fn value(&self) -> (r: u32)
        ensures
            r == self@,
    {
        self.count
    }
}

impl Incrementable for GuessCount {
    open spec fn tally(&self) -> int {
        self@ as int
    }

    open spec fn can_increment(&self) -> bool {
        self@ < u32::MAX
    }

    fn increment(&mut self) {
        self.count = self.count + 1;
    }
}

} // verus!
