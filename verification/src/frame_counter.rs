//! Per-domain generation counter: strictly increases by exactly one per
//! committed tick and never decreases.

use vstd::prelude::*;

verus! {

/// Monotonic frame-sequence counter for one simulation domain.
pub struct FrameCounter {
    counter: u64,
}

impl FrameCounter {
    /// The current count, as an unbounded integer.
    pub closed spec fn view(&self) -> nat {
        self.counter as nat
    }

    pub fn new(value: usize) -> (r: FrameCounter)
        ensures
            r@ == value as nat,
    {
        FrameCounter { counter: value as u64 }
    }

    pub fn get(&self) -> (r: u64)
        ensures
            r as nat == self@,
    {
        self.counter
    }

    /// Advances the counter by exactly one and returns the pre-increment
    /// value, which callers use as the new frame's sequence id.
    pub fn increment(&mut self) -> (r: u64)
        requires
            old(self)@ < u64::MAX,
        ensures
            final(self)@ == old(self)@ + 1,
            r as nat == old(self)@,
    {
        let v = self.counter;
        self.counter = v + 1;
        v
    }
}

} // verus!
