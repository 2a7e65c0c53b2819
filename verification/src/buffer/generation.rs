//! Generation tracking for buffer lifecycle management.

use vstd::prelude::*;

verus! {

/// The generation after one more lifecycle event: one more, wrapping from
/// the largest value back to 0.
pub open spec fn next_generation(g: u64) -> u64 {
    if g == u64::MAX {
        0
    } else {
        (g + 1) as u64
    }
}

/// Counter for tracking buffer lifecycle events.
///
/// Each buffer operation (allocation, use, reuse) can increment the
/// generation to help with debugging buffer lifecycle issues and detecting
/// use-after-free scenarios in development builds.
#[derive(Debug)]
pub struct GenerationCounter {
    /// The current generation
    counter: u64,
}

impl View for GenerationCounter {
    type V = u64;

    closed spec fn view(&self) -> u64 {
        self.counter
    }
}

impl GenerationCounter {
    /// Creates a new generation counter starting at 0.
    pub fn new() -> (r: Self)
        ensures
            r@ == 0,
    {
        GenerationCounter { counter: 0 }
    }

    /// Returns the current generation value.
    pub fn get(&self) -> (r: u64)
        ensures
            r == self@,
    {
        self.counter
    }

    /// Increments the generation counter, wrapping at the largest value.
    pub fn increment(&mut self)
        ensures
            final(self)@ == next_generation(old(self)@),
    {
        self.counter = if self.counter == u64::MAX { 0 } else { self.counter + 1 };
    }

    /// Sets the generation counter to a specific value.
    pub fn set(&mut self, value: u64)
        ensures
            final(self)@ == value,
    {
        self.counter = value;
    }
}

impl Default for GenerationCounter {
    fn default() -> (r: Self)
        ensures
            r@ == 0,
    {
        Self::new()
    }
}

impl Clone for GenerationCounter {
    /// Creates a new counter with the same generation value.
    fn clone(&self) -> (r: Self)
        ensures
            r@ == self@,
    {
        GenerationCounter { counter: self.get() }
    }
}

} // verus!
