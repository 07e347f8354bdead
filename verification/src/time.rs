//! Instants in UTC, as the stores and token claims use them.

use vstd::prelude::*;

verus! {

/// The earliest representable instant, in Unix seconds (-262143-01-01T00:00:00Z).
pub const MIN_TIMESTAMP: i64 = -8334601228800;

/// The latest representable instant, in Unix seconds (+262142-12-31T23:59:59Z).
pub const MAX_TIMESTAMP: i64 = 8210266876799;

/// The largest number of seconds a signed duration can hold (`i64::MAX` milliseconds).
pub const MAX_DELTA_SECONDS: i64 = 9223372036854775;

/// An instant in UTC: whole seconds since the Unix epoch and the nanoseconds
/// past that second.
#[derive(Clone, Copy, Debug, PartialEq, Eq, Structural)]
pub struct UtcTime {
    pub secs: i64,
    pub nanos: u32,
}

pub open spec fn timestamp_in_range(secs: int) -> bool {
    MIN_TIMESTAMP <= secs <= MAX_TIMESTAMP
}

impl UtcTime {
    pub open spec fn in_range(self) -> bool {
        timestamp_in_range(self.secs as int) && self.nanos < 1_000_000_000
    }

    /// Strictly later than `other`.
    pub open spec fn after(self, other: UtcTime) -> bool {
        self.secs > other.secs || (self.secs == other.secs && self.nanos > other.nanos)
    }

    /// The instant `seconds` later, if that instant is representable.
    pub open spec fn plus_seconds(self, seconds: int) -> Option<UtcTime> {
        if timestamp_in_range(self.secs + seconds) {
            Some(UtcTime { secs: (self.secs + seconds) as i64, nanos: self.nanos })
        } else {
            None
        }
    }

    pub fn is_after(&self, other: &UtcTime) -> (r: bool)
        ensures
            r == self.after(*other),
    {
        self.secs > other.secs || (self.secs == other.secs && self.nanos > other.nanos)
    }

    /// Adds a signed number of seconds; `None` when the result leaves the
    /// representable range.
    pub fn checked_add_seconds(&self, seconds: i64) -> (r: Option<UtcTime>)
        requires
            -MAX_DELTA_SECONDS <= seconds <= MAX_DELTA_SECONDS,
        ensures
            r == self.plus_seconds(seconds as int),
    {
        match self.secs.checked_add(seconds) {
            Some(secs) => {
                if MIN_TIMESTAMP <= secs && secs <= MAX_TIMESTAMP {
                    Some(UtcTime { secs, nanos: self.nanos })
                } else {
                    None
                }
            },
            None => None,
        }
    }

    /// Whole seconds since the Unix epoch.
    pub fn timestamp(&self) -> (r: i64)
        ensures
            r == self.secs,
    {
        self.secs
    }
}

} // verus!
