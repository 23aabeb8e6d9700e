//! Byte count and start time of a session.

use std::time::{Duration, Instant};
use vstd::prelude::*;

verus! {

/// A point on the monotonic clock, carried through without being looked into.
#[verifier::external_type_specification]
#[verifier::external_body]
pub struct ExInstant(std::time::Instant);

/// The present moment. Calls `Instant::now`; nothing is promised of a clock
/// reading.
#[verifier::external_body]
fn clock_now() -> Instant {
    Instant::now()
}

/// The time that has passed since `start`. Calls `Instant::elapsed`; nothing
/// is promised of a clock reading.
#[verifier::external_body]
fn clock_elapsed(start: &Instant) -> Duration {
    start.elapsed()
}

/// How many bytes a session has received, and when it began.
pub struct SessionStats {
    total_bytes: u64,
    start_time: Instant,
}

impl SessionStats {
    /// The number of bytes received.
    pub closed spec fn total(&self) -> nat {
        self.total_bytes as nat
    }

    /// The moment from which the session's time is counted.
    pub closed spec fn started(&self) -> Instant {
        self.start_time
    }

    /// A session that begins now, with nothing received.
    pub fn new() -> (stats: Self)
        ensures
            stats.total() == 0,
    {
        SessionStats { total_bytes: 0, start_time: clock_now() }
    }

    /// Counts `count` more bytes.
    pub fn add_bytes(&mut self, count: usize)
        requires
            old(self).total() + count <= u64::MAX,
        ensures
            final(self).total() == old(self).total() + count,
            final(self).started() == old(self).started(),
    {
        self.total_bytes = self.total_bytes + count as u64;
    }

    /// The number of bytes received.
    pub fn total_bytes(&self) -> (total: u64)
        ensures
            total == self.total(),
    {
        self.total_bytes
    }

    /// The time since the session began, or since it was last reset.
    pub fn elapsed(&self) -> Duration {
        clock_elapsed(&self.start_time)
    }

    /// Begins anew: nothing received, and the time counted from now.
    pub fn reset(&mut self)
        ensures
            final(self).total() == 0,
    {
        self.total_bytes = 0;
        self.start_time = clock_now();
    }
}

impl Default for SessionStats {
    fn default() -> (stats: Self)
        ensures
            stats.total() == 0,
    {
        SessionStats::new()
    }
}

} // verus!
