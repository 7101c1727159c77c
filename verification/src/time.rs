//! Point-in-time values, in nanoseconds since the epoch.

use vstd::prelude::*;

verus! {

/// Nanoseconds in one second.
pub const NANOS_PER_SECOND: u64 = 1_000_000_000;

/// A point in time, with nanosecond precision.
#[derive(Clone, Copy, Debug, PartialEq, Eq, Structural)]
pub struct Timestamp {
    pub nanos: u64,
}

impl Timestamp {
    /// A timestamp `seconds` seconds after the epoch.
    pub fn from_seconds(seconds: u64) -> (r: Timestamp)
        requires
            seconds * NANOS_PER_SECOND <= u64::MAX,
        ensures
            r.nanos == seconds * NANOS_PER_SECOND,
    {
        Timestamp { nanos: seconds * NANOS_PER_SECOND }
    }

    /// A timestamp `nanos` nanoseconds after the epoch.
    pub fn from_nanos(nanos: u64) -> (r: Timestamp)
        ensures
            r.nanos == nanos,
    {
        Timestamp { nanos }
    }

    /// The timestamp `seconds` seconds after this one.
    pub fn plus_seconds(self, seconds: u64) -> (r: Timestamp)
        requires
            self.nanos + seconds * NANOS_PER_SECOND <= u64::MAX,
        ensures
            r.nanos == self.nanos + seconds * NANOS_PER_SECOND,
    {
        Timestamp { nanos: self.nanos + seconds * NANOS_PER_SECOND }
    }

    /// This timestamp in whole seconds, rounded down.
    pub fn seconds(self) -> (r: u64)
        ensures
            r == self.nanos / NANOS_PER_SECOND,
    {
        self.nanos / NANOS_PER_SECOND
    }

    /// The raw nanosecond count.
    pub fn nanos(self) -> (r: u64)
        ensures
            r == self.nanos,
    {
        self.nanos
    }
}

} // verus!
