//! The liveness counter shared by the orchestrator and the watchdog task.
//!
//! The orchestrator resets the counter at the top of every iteration; the
//! watchdog task increments and reads it on its own one-second tick.  The
//! counter therefore tells the watchdog how many of its ticks have passed
//! since the orchestrator last made progress.  The driver wraps one
//! `LivenessCounter` in whatever critical section its executor needs; each
//! operation here is a single short read or write, so the section never
//! blocks for longer than that.

use vstd::prelude::*;

verus! {

/// `c + 1`, wrapping to zero at the top of the unsigned 32-bit range.
pub open spec fn wrapping_inc(c: u32) -> u32 {
    if c == u32::MAX {
        0
    } else {
        (c + 1) as u32
    }
}

/// Ticks without orchestrator progress.  Zero means the orchestrator
/// completed an iteration since the watchdog last looked.
#[derive(Clone, Copy, Debug, PartialEq, Eq, Structural)]
pub struct LivenessCounter {
    pub count: u32,
}

impl LivenessCounter {
    /// A fresh counter, as if the orchestrator had just made progress.
    pub fn new() -> (c: LivenessCounter)
        ensures
            c.count == 0,
    {
        LivenessCounter { count: 0 }
    }

    /// One watchdog tick's counter access: stores the bumped value
    /// (wrapping) and reports the value the counter held *before* the
    /// bump — the ticks the orchestrator had been quiet when this tick
    /// fired — on which the feeding decision is made.
    pub fn fetch_and_increment(&mut self) -> (r: u32)
        ensures
            final(self).count == wrapping_inc(old(self).count),
            r == old(self).count,
    {
        let previous = self.count;
        if self.count == u32::MAX {
            self.count = 0;
        } else {
            self.count = self.count + 1;
        }
        previous
    }
}

/// Marks orchestrator progress: resets the shared counter to zero.  Called
/// once per loop iteration; it has no failure mode.
pub fn clear_watchdog(counter: &mut LivenessCounter)
    ensures
        final(counter).count == 0,
{
    counter.count = 0;
}

} // verus!
