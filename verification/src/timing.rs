//! Drift-compensated loop timing.
//!
//! Both loops — the fullscreen poller (500 ms budget) and the event
//! dispatch loop (5 ms budget) — sleep only for what is left of their
//! budget after the tick's own work, so the period stays stable despite
//! variable work duration, and never sleep a negative time.

use std::time::SystemTime;
use std::time::UNIX_EPOCH;
use vstd::prelude::*;

verus! {

/// Budget of one fullscreen-poller iteration, in milliseconds.
pub const POLL_INTERVAL_MS: u64 = 500;

/// Budget of one event-dispatch tick, in milliseconds.
pub const TICK_BUDGET_MS: u64 = 5;

/// What is left of a budget after some work: the difference, saturating at
/// zero.
pub open spec fn spec_remaining(budget: int, elapsed: int) -> int {
    if elapsed >= budget {
        0
    } else {
        budget - elapsed
    }
}

/// Sleep time left in a loop's budget after `elapsed_ms` of work.
pub fn remaining_budget(budget_ms: u64, elapsed_ms: u64) -> (rem: u64)
    ensures
        rem == spec_remaining(budget_ms as int, elapsed_ms as int),
{
    if elapsed_ms >= budget_ms {
        0
    } else {
        budget_ms - elapsed_ms
    }
}

/// Sleep time after a tick that began at `start_ms` and finished its work
/// at `end_ms`. A clock reading that jumped backward counts as no elapsed
/// time, so the call never panics and sleeps at most one full budget.
pub fn sleep_after_work(start_ms: u64, end_ms: u64, budget_ms: u64) -> (rem: u64)
    ensures
        end_ms >= start_ms ==> rem == spec_remaining(budget_ms as int, end_ms - start_ms),
        end_ms < start_ms ==> rem == budget_ms,
{
    let elapsed = if end_ms >= start_ms {
        end_ms - start_ms
    } else {
        0
    };
    remaining_budget(budget_ms, elapsed)
}

/// Relies on std::time::SystemTime::now and duration_since: the current
/// time of the system clock, as whole milliseconds since the Unix epoch,
/// or None for a reading from before the epoch. The clock decides the
/// value, so nothing is promised of it; callers state what holds of every
/// reading.
#[verifier::external_body]
fn clock_millis() -> Option<u64> {
    SystemTime::now().duration_since(UNIX_EPOCH).ok().map(|d| d.as_millis() as u64)
}

/// The current time in whole milliseconds since the Unix epoch; a clock
/// reading from before the epoch counts as zero, so the call never panics.
/// The loops take a reading at the start and the end of each tick's work
/// and sleep for what `sleep_after_work` makes of the pair.
pub fn timestamp() -> u64 {
    match clock_millis() {
        Some(ms) => ms,
        None => 0,
    }
}

/// Law (drift compensation): when the work finishes under budget, the next
/// iteration begins exactly one budget after this one began — never
/// earlier.
pub proof fn lemma_drift_compensation(start: int, elapsed: int, budget: int)
    requires
        0 <= elapsed < budget,
    ensures
        start + elapsed + spec_remaining(budget, elapsed) == start + budget,
{
}

/// Law (saturating sleep): when the work takes the whole budget or more,
/// the sleep is zero and the next iteration begins immediately.
pub proof fn lemma_saturating_sleep(start: int, elapsed: int, budget: int)
    requires
        0 <= budget <= elapsed,
    ensures
        spec_remaining(budget, elapsed) == 0,
        start + elapsed + spec_remaining(budget, elapsed) == start + elapsed,
{
}

/// Law: whatever the work took, the next iteration never begins before one
/// full budget has passed.
pub proof fn lemma_period_lower_bound(start: int, elapsed: int, budget: int)
    requires
        0 <= elapsed,
        0 <= budget,
    ensures
        start + elapsed + spec_remaining(budget, elapsed) >= start + budget,
{
}

/// Walk a schedule whose entries are at most `gap` apart to the first entry
/// at or after `t`.
proof fn find_cover_from(times: Seq<int>, gap: int, t: int, k: int) -> (i: int)
    requires
        gap > 0,
        forall|m: int| 0 <= m < times.len() - 1 ==> #[trigger] times[m + 1] <= times[m] + gap,
        0 <= k < times.len(),
        times[k] <= t,
        times[times.len() - 1] >= t,
    ensures
        k <= i < times.len(),
        t <= times[i] <= t + gap,
    decreases times.len() - k,
{
    if times[k] >= t {
        k
    } else if times[k + 1] >= t {
        assert(times[k + 1] <= times[k] + gap);
        k + 1
    } else {
        find_cover_from(times, gap, t, k + 1)
    }
}

/// Law (schedule covering): a schedule whose entries start no later than
/// `t` and end no earlier than `t`, with consecutive entries at most `gap`
/// apart, has an entry within `gap` after `t`.
pub proof fn lemma_schedule_covers(times: Seq<int>, gap: int, t: int) -> (i: int)
    requires
        gap > 0,
        times.len() > 0,
        forall|m: int| 0 <= m < times.len() - 1 ==> #[trigger] times[m + 1] <= times[m] + gap,
        times[0] <= t,
        times[times.len() - 1] >= t,
    ensures
        0 <= i < times.len(),
        t <= times[i] <= t + gap,
{
    find_cover_from(times, gap, t, 0)
}

/// Law (gate staleness): model the poller's sample times and the dispatch
/// loop's gate reads as two schedules of timestamps, each keeping its
/// budget (consecutive polls at most one poll interval apart, consecutive
/// reads at most one tick budget apart, as the drift-compensation laws
/// give while the work stays under budget). Then a fullscreen transition
/// at time `t` is sampled by some poll within one poll interval, and that
/// sample is read by some tick within one further tick budget: the
/// transition is visible to the dispatch loop no later than
/// `t + POLL_INTERVAL_MS + TICK_BUDGET_MS`. The result names the covering
/// poll and tick.
pub proof fn lemma_gate_staleness(polls: Seq<int>, ticks: Seq<int>, t: int) -> (w: (int, int))
    requires
        polls.len() > 0,
        ticks.len() > 0,
        forall|m: int|
            0 <= m < polls.len() - 1 ==> #[trigger] polls[m + 1] <= polls[m]
                + POLL_INTERVAL_MS as int,
        forall|m: int|
            0 <= m < ticks.len() - 1 ==> #[trigger] ticks[m + 1] <= ticks[m]
                + TICK_BUDGET_MS as int,
        polls[0] <= t,
        polls[polls.len() - 1] >= t,
        ticks[0] <= t,
        ticks[ticks.len() - 1] >= t + POLL_INTERVAL_MS as int,
    ensures
        0 <= w.0 < polls.len(),
        0 <= w.1 < ticks.len(),
        t <= polls[w.0] <= t + POLL_INTERVAL_MS as int,
        polls[w.0] <= ticks[w.1] <= polls[w.0] + TICK_BUDGET_MS as int,
        ticks[w.1] <= t + POLL_INTERVAL_MS as int + TICK_BUDGET_MS as int,
{
    let i = lemma_schedule_covers(polls, POLL_INTERVAL_MS as int, t);
    let j = lemma_schedule_covers(ticks, TICK_BUDGET_MS as int, polls[i]);
    (i, j)
}

} // verus!
