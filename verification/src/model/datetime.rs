//! Instants in UTC, as `chrono::DateTime<Utc>` holds them: seconds since the
//! Unix epoch and the nanoseconds within that second (up to two seconds'
//! worth, for a leap second).

use vstd::prelude::*;

verus! {

/// An instant in UTC.
#[derive(Clone, Copy, Debug, PartialEq, Eq, Structural)]
pub struct UtcDateTime {
    /// Whole seconds since 1970-01-01T00:00:00Z.
    pub secs: i64,
    /// Nanoseconds after `secs`; from one second on, a leap second.
    pub nanos: u32,
}

impl UtcDateTime {
    /// The nanoseconds stay within two seconds.
    pub open spec fn wf(self) -> bool {
        self.nanos < 2_000_000_000
    }

    /// `self` comes strictly after `other`.
    pub open spec fn is_after(self, other: UtcDateTime) -> bool {
        self.secs > other.secs || (self.secs == other.secs && self.nanos > other.nanos)
    }

    /// The Unix epoch, the default instant.
    pub fn unix_epoch() -> (r: UtcDateTime)
        ensures
            r.secs == 0,
            r.nanos == 0,
            r.wf(),
    {
        UtcDateTime { secs: 0, nanos: 0 }
    }

    /// Whether `self` comes strictly after `other`.
    pub fn after(&self, other: &UtcDateTime) -> (r: bool)
        ensures
            r == self.is_after(*other),
    {
        self.secs > other.secs || (self.secs == other.secs && self.nanos > other.nanos)
    }

    /// The later of two instants; `other` when they are equal.
    pub fn later_of(self, other: UtcDateTime) -> (r: UtcDateTime)
        ensures
            r == (if self.is_after(other) { self } else { other }),
    {
        if self.after(&other) {
            self
        } else {
            other
        }
    }
}

/// Calls `chrono::Utc::now`. Claimed: the instant is well formed; nothing
/// is said of which instant it is.
#[verifier::external_body]
pub(crate) fn utc_now() -> (r: UtcDateTime)
    ensures
        r.wf(),
{
    let now = chrono::Utc::now();
    UtcDateTime { secs: now.timestamp(), nanos: now.timestamp_subsec_nanos() }
}

} // verus!
