//! Moments in time and the wait until the next decision.

use vstd::prelude::*;

verus! {

/// Nanoseconds in a second.
pub const NANOS_PER_SECOND: u32 = 1_000_000_000;

/// Seconds to wait when there is no event end to wait for.
pub const IDLE_POLL_SECONDS: u64 = 60;

/// A moment in UTC: whole seconds since 1970-01-01T00:00:00Z, and nanoseconds
/// on top of them. The nanoseconds may go beyond one second, which is how a
/// leap second is written; they count on all the same.
#[derive(Debug, Clone, Copy, PartialEq, Eq, Structural)]
pub struct Instant {
    pub secs: i64,
    pub nanos: u32,
}

impl Instant {
    /// The moment as nanoseconds since 1970-01-01T00:00:00Z.
    pub open spec fn since_epoch(self) -> int {
        self.secs * 1_000_000_000 + self.nanos
    }

    /// This moment comes strictly before `other`.
    pub open spec fn before(self, other: Instant) -> bool {
        self.since_epoch() < other.since_epoch()
    }

    fn nanos_since_epoch(&self) -> (n: i128)
        ensures
            n == self.since_epoch(),
    {
        (self.secs as i128) * 1_000_000_000 + (self.nanos as i128)
    }

    /// Whether this moment comes strictly before `other`.
    pub fn is_before(&self, other: &Instant) -> (earlier: bool)
        ensures
            earlier == self.before(*other),
    {
        self.nanos_since_epoch() < other.nanos_since_epoch()
    }
}

/// A wait: whole seconds, and nanoseconds below one second on top of them.
#[derive(Debug, Clone, Copy, PartialEq, Eq, Structural)]
pub struct SleepDuration {
    pub secs: u64,
    pub nanos: u32,
}

impl SleepDuration {
    /// The nanoseconds stay below one second.
    pub open spec fn well_formed(self) -> bool {
        self.nanos < NANOS_PER_SECOND
    }

    /// The length of the wait in nanoseconds.
    pub open spec fn length(self) -> int {
        self.secs * 1_000_000_000 + self.nanos
    }
}

/// The wait when there is no event end to wait for.
pub open spec fn idle_interval() -> SleepDuration {
    SleepDuration { secs: IDLE_POLL_SECONDS, nanos: 0 }
}

/// The longest wait a [`SleepDuration`] can hold, in nanoseconds.
pub open spec fn longest_wait() -> int {
    u64::MAX * 1_000_000_000 + 999_999_999
}

/// The wait from `now` until `end`: the time between them where `end` lies
/// ahead and the time fits, else the idle interval.
pub open spec fn wait_until(end: Instant, now: Instant) -> SleepDuration {
    let ahead = end.since_epoch() - now.since_epoch();
    if 0 < ahead <= longest_wait() {
        SleepDuration {
            secs: (ahead / 1_000_000_000) as u64,
            nanos: (ahead % 1_000_000_000) as u32,
        }
    } else {
        idle_interval()
    }
}

/// The wait when there is no event end to wait for.
pub fn idle_sleep() -> (wait: SleepDuration)
    ensures
        wait == idle_interval(),
        wait.well_formed(),
        wait.length() == 60 * 1_000_000_000,
{
    SleepDuration { secs: IDLE_POLL_SECONDS, nanos: 0 }
}

/// How long to wait at `now` for an event that ends at `end`.
///
/// Where the end lies ahead the wait is the time until then, to the
/// nanosecond. Where the end has been reached or passed, or the time until
/// then is more than a wait can hold, it is the idle interval.
pub fn sleep_until(end: &Instant, now: &Instant) -> (wait: SleepDuration)
    ensures
        wait == wait_until(*end, *now),
        wait.well_formed(),
        wait.length() > 0,
        now.before(*end) && end.since_epoch() - now.since_epoch() <= longest_wait()
            ==> wait.length() == end.since_epoch() - now.since_epoch(),
        !now.before(*end) ==> wait == idle_interval(),
{
    let ahead: i128 = end.nanos_since_epoch() - now.nanos_since_epoch();
    if ahead <= 0 {
        return idle_sleep();
    }
    let secs: i128 = ahead / 1_000_000_000;
    let nanos: i128 = ahead % 1_000_000_000;
    if secs > u64::MAX as i128 {
        return idle_sleep();
    }
    SleepDuration { secs: secs as u64, nanos: nanos as u32 }
}

/// While the end of an event lies ahead, the wait is the time until the end,
/// provided that a wait can hold it.
pub proof fn lemma_wait_reaches_the_end(end: Instant, now: Instant)
    requires
        now.before(end),
        end.since_epoch() - now.since_epoch() <= longest_wait(),
    ensures
        wait_until(end, now).well_formed(),
        wait_until(end, now).length() == end.since_epoch() - now.since_epoch(),
{
}

/// Once the end of an event is reached or passed, the wait is the idle
/// interval.
pub proof fn lemma_wait_after_the_end(end: Instant, now: Instant)
    requires
        !now.before(end),
    ensures
        wait_until(end, now) == idle_interval(),
{
}

/// A wait is never empty, and its nanoseconds stay below one second.
pub proof fn lemma_wait_is_positive(end: Instant, now: Instant)
    ensures
        wait_until(end, now).well_formed(),
        wait_until(end, now).length() > 0,
{
}

} // verus!
