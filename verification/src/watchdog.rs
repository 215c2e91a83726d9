//! The watchdog supervisor's feeding policy.
//!
//! The hardware watchdog resets the device unless it is fed on time.  On a
//! fresh boot the supervisor arms it with an extended timeout, long enough
//! to survive a slow WiFi association, and after a fixed grace period
//! re-arms it with the short production timeout.  From then on, each tick
//! it bumps the shared liveness counter and decides from the new value
//! whether to feed: a counter past the starvation threshold means the
//! orchestrator has made no progress for that many ticks, and the
//! supervisor deliberately starves the watchdog so the hardware resets the
//! device.  There is no software recovery path, by design.

use vstd::prelude::*;

use crate::liveness::{wrapping_inc, LivenessCounter};

verus! {

/// Extended timeout armed at boot, in milliseconds.
pub const BOOT_TIMEOUT_MILLIS: u64 = 8_300;

/// Grace period before re-arming with the production timeout, in
/// milliseconds.
pub const BOOT_GRACE_MILLIS: u64 = 8_000;

/// Short production timeout, in milliseconds.
pub const PRODUCTION_TIMEOUT_MILLIS: u64 = 1_500;

/// The supervisor's tick period, in milliseconds.
pub const TICK_MILLIS: u64 = 1_000;

/// Largest counter value the supervisor still tolerates silently.
pub const QUIET_LIMIT: u32 = 1;

/// Largest counter value at which the watchdog is still fed; one tick
/// beyond it the supervisor starts starving the watchdog.
pub const FEED_LIMIT: u32 = 35;

/// The two arming phases of the hardware watchdog.
#[derive(Clone, Copy, Debug, PartialEq, Eq, Structural)]
pub enum WatchdogPhase {
    /// Fresh boot: the window must survive a slow network association.
    Boot,
    /// After the grace period: the short production window.
    Production,
}

/// The timeout the watchdog is armed with in each phase.
pub fn arm_timeout_millis(p: WatchdogPhase) -> (t: u64)
    ensures
        p is Boot ==> t == BOOT_TIMEOUT_MILLIS,
        p is Production ==> t == PRODUCTION_TIMEOUT_MILLIS,
{
    match p {
        WatchdogPhase::Boot => BOOT_TIMEOUT_MILLIS,
        WatchdogPhase::Production => PRODUCTION_TIMEOUT_MILLIS,
    }
}

/// What the supervisor does with the hardware watchdog on one tick.
#[derive(Clone, Copy, Debug, PartialEq, Eq, Structural)]
pub enum WatchdogAction {
    /// Feed without comment: the orchestrator made progress recently.
    Feed,
    /// Feed, but log the stall: progress is overdue yet still tolerated.
    FeedAndWarn,
    /// Stop feeding and let the hardware reset the device.
    Starve,
}

/// The feeding decision for a counter value: feed silently up to
/// `QUIET_LIMIT`, feed with a warning up to `FEED_LIMIT`, starve beyond.
pub open spec fn watchdog_decision_spec(counter: u32) -> WatchdogAction {
    if counter <= QUIET_LIMIT {
        WatchdogAction::Feed
    } else if counter <= FEED_LIMIT {
        WatchdogAction::FeedAndWarn
    } else {
        WatchdogAction::Starve
    }
}

/// Decides from the counter value whether this tick feeds the watchdog.
pub fn watchdog_decision(counter: u32) -> (a: WatchdogAction)
    ensures
        a == watchdog_decision_spec(counter),
{
    if counter <= QUIET_LIMIT {
        WatchdogAction::Feed
    } else if counter <= FEED_LIMIT {
        WatchdogAction::FeedAndWarn
    } else {
        WatchdogAction::Starve
    }
}

/// One supervisor tick: bumps the shared counter and decides on the value
/// it held before the bump — the ticks the orchestrator had been quiet
/// when this tick fired.  So the tick that finds 35 quiet ticks still
/// feeds, the next one starves, and the tick that wraps a counter left to
/// run all the way up does not feed.  The driver performs the feed (or
/// withholds it) and sleeps `TICK_MILLIS` before the next tick.
pub fn watchdog_tick(counter: &mut LivenessCounter) -> (a: WatchdogAction)
    ensures
        final(counter).count == wrapping_inc(old(counter).count),
        a == watchdog_decision_spec(old(counter).count),
{
    let previous = counter.fetch_and_increment();
    watchdog_decision(previous)
}

/// A tick taken right after orchestrator progress feeds the watchdog
/// silently: the decision on a cleared counter is `Feed`.
pub proof fn lemma_progress_feeds()
    ensures
        watchdog_decision_spec(0) == WatchdogAction::Feed,
{
}

} // verus!
