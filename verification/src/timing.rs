//! A countdown over a millisecond clock. The current time is always handed
//! in as a plain value by the caller, so the countdown logic itself is pure;
//! the host loop supplies a monotonic clock reading each tick.

use vstd::prelude::*;

verus! {

/// A countdown started at a fixed clock reading, done once more than its
/// duration has elapsed.
#[derive(Clone, Copy, Debug, PartialEq, Eq, Structural)]
pub struct Countdown {
    /// Clock reading at which the countdown started, in milliseconds.
    pub start_ms: u64,
    /// How long the countdown runs, in milliseconds.
    pub duration_ms: u64,
}

impl Countdown {
    /// Milliseconds elapsed since the countdown started; zero if the clock
    /// reads earlier than the start (a monotonic clock never does).
    pub open spec fn elapsed_spec(self, now_ms: u64) -> int {
        if now_ms >= self.start_ms {
            now_ms - self.start_ms
        } else {
            0
        }
    }

    /// Whether strictly more than the duration has elapsed.
    pub open spec fn done_spec(self, now_ms: u64) -> bool {
        self.elapsed_spec(now_ms) > self.duration_ms
    }

    /// Start a countdown of `duration_ms` at the clock reading `now_ms`.
    pub fn new(duration_ms: u64, now_ms: u64) -> (c: Countdown)
        ensures
            c == (Countdown { start_ms: now_ms, duration_ms }),
    {
        Countdown { start_ms: now_ms, duration_ms }
    }

    /// Milliseconds elapsed since the countdown started.
    pub fn elapsed(&self, now_ms: u64) -> (r: u64)
        ensures
            r == self.elapsed_spec(now_ms),
    {
        if now_ms >= self.start_ms {
            now_ms - self.start_ms
        } else {
            0
        }
    }

    /// Whether the countdown has run past its duration.
    pub fn is_done(&self, now_ms: u64) -> (r: bool)
        ensures
            r == self.done_spec(now_ms),
    {
        self.elapsed(now_ms) > self.duration_ms
    }
}

} // verus!
