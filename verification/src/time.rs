//! Points in time and the clock.

use vstd::prelude::*;

verus! {

/// Nanoseconds in one second.
pub const NANOS_PER_SECOND: u32 = 1_000_000_000;

/// A point in time: whole seconds since the start of 1970 in UTC, and the
/// nanoseconds that have passed since that second began.
#[derive(Clone, Copy, Debug, PartialEq, Eq)]
pub struct Timestamp {
    pub secs: i64,
    pub nanos: u32,
}

impl View for Timestamp {
    type V = Timestamp;

    open spec fn view(&self) -> Timestamp {
        *self
    }
}

impl DeepView for Timestamp {
    type V = Timestamp;

    open spec fn deep_view(&self) -> Timestamp {
        *self
    }
}

impl Timestamp {
    /// The point in time as nanoseconds since the start of 1970.
    pub open spec fn instant(self) -> int {
        self.secs * NANOS_PER_SECOND + self.nanos
    }

    /// Whether `self` lies less than `seconds` seconds after `earlier`, or
    /// before it.
    pub open spec fn is_within(self, earlier: Timestamp, seconds: int) -> bool {
        self.instant() < earlier.instant() + seconds * NANOS_PER_SECOND
    }

    /// Tells whether `self` lies less than `seconds` seconds after `earlier`.
    pub fn within(&self, earlier: &Timestamp, seconds: u64) -> (early: bool)
        ensures
            early == self.is_within(*earlier, seconds as int),
    {
        let scale: i128 = 1_000_000_000;
        let this: i128 = (self.secs as i128) * scale + (self.nanos as i128);
        let start: i128 = (earlier.secs as i128) * scale + (earlier.nanos as i128);
        this < start + (seconds as i128) * scale
    }
}

/// `chrono::Utc::now`: the current time by the system clock, given as the
/// whole seconds of its `timestamp` and the nanoseconds of its
/// `timestamp_subsec_nanos`. Nothing is claimed of the value. The call panics
/// where the system clock reads a time before 1970.
#[verifier::external_body]
pub(crate) fn current_time() -> (now: Timestamp) {
    let now = chrono::Utc::now();
    Timestamp { secs: now.timestamp(), nanos: now.timestamp_subsec_nanos() }
}

} // verus!
