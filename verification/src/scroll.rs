//! Burst aggregation for continuous-scroll events.
//!
//! Continuous-scroll hardware reports many micro-events per physical
//! gesture; firing a cue per micro-event would flood the audio output, so
//! a fixed-size burst window coalesces a gesture into one cue.

use vstd::prelude::*;

verus! {

/// Number of continuous-scroll micro-events coalesced into one cue firing.
pub const SCROLL_BURST_THRESHOLD: u32 = 32;

/// Counts continuous-scroll micro-events and fires once per full burst.
///
/// Owned by the dispatch loop alone; it is never shared across threads.
pub struct ScrollAggregator {
    /// Micro-events seen since the last firing; always below the threshold.
    pub count: u32,
}

impl ScrollAggregator {
    /// The counter never reaches the threshold between calls: it is reset
    /// to zero at the exact call on which it would.
    pub open spec fn wf(&self) -> bool {
        self.count < SCROLL_BURST_THRESHOLD
    }

    pub fn new() -> (agg: Self)
        ensures
            agg.wf(),
            agg.count == 0,
    {
        ScrollAggregator { count: 0 }
    }

    /// Record one continuous-scroll micro-event; the result says whether
    /// this event completes a burst, in which case the counter resets.
    pub fn feed(&mut self) -> (fired: bool)
        requires
            old(self).wf(),
        ensures
            final(self).wf(),
            fired == (old(self).count + 1 == SCROLL_BURST_THRESHOLD),
            fired ==> final(self).count == 0,
            !fired ==> final(self).count == old(self).count + 1,
    {
        self.count = self.count + 1;
        if self.count >= SCROLL_BURST_THRESHOLD {
            self.count = 0;
            true
        } else {
            false
        }
    }
}

} // verus!
