//! Points in time and the spans between them, as plain integers.

use vstd::prelude::*;

verus! {

/// Nanoseconds in one second.
pub const NANOS_PER_SEC: i128 = 1_000_000_000;

/// Nanoseconds in one millisecond.
pub const NANOS_PER_MILLI: i128 = 1_000_000;

/// A point in time: whole seconds since the Unix epoch (UTC) and the
/// nanoseconds past that second.
#[derive(Clone, Copy, Debug, PartialEq, Eq, Structural)]
pub struct Timestamp {
    pub secs: i64,
    pub nanos: u32,
}

/// A signed span of time, in nanoseconds.
#[derive(Clone, Copy, Debug, PartialEq, Eq, Structural)]
pub struct Duration {
    pub nanos: i128,
}

impl Timestamp {
    /// The instant as nanoseconds since the Unix epoch.
    pub open spec fn since_epoch(self) -> int {
        self.secs * 1_000_000_000 + self.nanos
    }

    /// `self` is not earlier than `other`.
    pub open spec fn at_or_after(self, other: Timestamp) -> bool {
        self.since_epoch() >= other.since_epoch()
    }

    pub fn new(secs: i64, nanos: u32) -> (t: Timestamp)
        ensures
            t.secs == secs,
            t.nanos == nanos,
    {
        Timestamp { secs, nanos }
    }

    /// The current time in UTC, read from the system clock.
    pub fn now() -> Timestamp {
        system_time()
    }

    /// The instant as nanoseconds since the Unix epoch.
    pub fn nanos_since_epoch(&self) -> (n: i128)
        ensures
            n == self.since_epoch(),
    {
        (self.secs as i128) * NANOS_PER_SEC + (self.nanos as i128)
    }

    /// The span from `start` to `self`: negative where `self` is the earlier.
    pub fn duration_since(&self, start: &Timestamp) -> (d: Duration)
        ensures
            d.nanos == self.since_epoch() - start.since_epoch(),
    {
        Duration { nanos: self.nanos_since_epoch() - start.nanos_since_epoch() }
    }

    /// Whether `self` is at or after `other`.
    pub fn is_at_or_after(&self, other: &Timestamp) -> (b: bool)
        ensures
            b == self.at_or_after(*other),
    {
        self.nanos_since_epoch() >= other.nanos_since_epoch()
    }
}

impl Duration {
    /// A span of `millis` milliseconds.
    pub fn milliseconds(millis: i64) -> (d: Duration)
        ensures
            d.nanos == millis * 1_000_000,
    {
        Duration { nanos: (millis as i128) * NANOS_PER_MILLI }
    }

    /// Whether the span is negative.
    pub fn is_negative(&self) -> (b: bool)
        ensures
            b == (self.nanos < 0),
    {
        self.nanos < 0
    }
}

/// `chrono::Utc::now`, with the result taken apart by
/// `DateTime::timestamp` and `DateTime::timestamp_subsec_nanos`. Nothing is
/// claimed of the value: it is whatever the system clock says.
#[verifier::external_body]
fn system_time() -> Timestamp {
    let now = chrono::Utc::now();
    Timestamp { secs: now.timestamp(), nanos: now.timestamp_subsec_nanos() }
}

} // verus!
