//! The counter of a slideshow: how often it has moved on to the next image.

use vstd::prelude::*;

verus! {

/// The counter after the slideshow has moved on `ticks` times. It stops at
/// the largest number that it can hold.
pub open spec fn after_ticks(counter: int, ticks: nat) -> int {
    if counter + ticks <= i32::MAX {
        counter + ticks
    } else {
        i32::MAX as int
    }
}

/// Moving on first some times and then some more is moving on so often
/// altogether.
pub proof fn lemma_ticks_add_up(counter: int, first: nat, second: nat)
    requires
        counter <= i32::MAX,
    ensures
        after_ticks(after_ticks(counter, first), second) == after_ticks(counter, first + second),
{
}

/// A counter that started at zero shows how often the slideshow has moved
/// on, as long as it can hold that number; and a counter never goes back.
pub proof fn lemma_ticks_counted(counter: int, ticks: nat)
    requires
        0 <= counter <= i32::MAX,
    ensures
        ticks <= i32::MAX ==> after_ticks(0, ticks) == ticks,
        counter <= after_ticks(counter, ticks) <= i32::MAX,
{
}

/// A counter that starts at zero and only ever goes up, one at a time.
#[derive(Debug)]
pub struct Counter {
    ticks: i32,
}

impl View for Counter {
    type V = int;

    closed spec fn view(&self) -> int {
        self.ticks as int
    }
}

impl Counter {
    #[verifier::type_invariant]
    spec fn counted_up(&self) -> bool {
        self.ticks >= 0
    }

    /// A counter at zero.
    pub fn new() -> (counter: Counter)
        ensures
            counter@ == 0,
    {
        Counter { ticks: 0 }
    }

    /// Moves the counter on by one.
    pub fn increment(&mut self)
        ensures
            final(self)@ == after_ticks(old(self)@, 1),
    {
        proof {
            use_type_invariant(&*self);
        }
        if self.ticks < i32::MAX {
            self.ticks = self.ticks + 1;
        }
    }

    /// How far the counter has come.
    pub fn get(&self) -> (ticks: i32)
        ensures
            ticks == self@,
            ticks >= 0,
    {
        proof {
            use_type_invariant(self);
        }
        self.ticks
    }
}

} // verus!
