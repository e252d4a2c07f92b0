//! Waking the monitor loops early when a request changed something.
//!
//! Every notification starts a new generation. A loop remembers the last
//! generation it has seen; when it is about to sleep and a newer generation
//! exists, it does not sleep but goes round again at once.

use vstd::prelude::*;

verus! {

/// The generation counter that wakes the monitor loops.
#[derive(Debug)]
pub struct Wake {
    generation: u64,
}

/// The generation after `g` (wrapping round after `u64::MAX`).
pub open spec fn next_generation(g: u64) -> u64 {
    if g == u64::MAX {
        0
    } else {
        (g + 1) as u64
    }
}

impl Wake {
    /// The current generation.
    pub closed spec fn generation(&self) -> u64 {
        self.generation
    }

    /// Generation zero.
    pub fn new() -> (w: Wake)
        ensures
            w.generation() == 0,
    {
        Wake { generation: 0 }
    }

    /// Starts a new generation: every loop that has not seen it yet goes
    /// round again instead of sleeping.
    pub fn notify(&mut self)
        ensures
            final(self).generation() == next_generation(old(self).generation()),
    {
        self.generation = self.generation.wrapping_add(1);
    }

    /// Called before sleeping with the last generation the loop has seen:
    /// when a newer one exists the loop takes it in and must not sleep
    /// (`false`); otherwise it must sleep until notified or timed out (`true`).
    pub fn wait_timeout(&self, last_seen: &mut u64) -> (must_sleep: bool)
        ensures
            must_sleep == (*old(last_seen) == self.generation()),
            *final(last_seen) == self.generation(),
    {
        if self.generation != *last_seen {
            *last_seen = self.generation;
            return false;
        }
        true
    }

    /// Called after sleeping: the loop takes in the current generation.
    pub fn observe(&self, last_seen: &mut u64)
        ensures
            *final(last_seen) == self.generation(),
    {
        *last_seen = self.generation;
    }
}

/// A loop that had seen every generation before a notification does not sleep
/// after it: a request takes effect without waiting for the next poll.
pub proof fn notify_wakes_every_loop(generation: u64, last_seen: u64)
    requires
        last_seen == generation,
    ensures
        next_generation(generation) != last_seen,
{
}

} // verus!
