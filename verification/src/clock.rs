//! Points in time, for the deadlines of deferred work.

use vstd::prelude::*;

verus! {

/// An instant: whole seconds since the Unix epoch and the nanoseconds past
/// that second.
#[derive(Clone, Copy, Debug, PartialEq, Eq)]
pub struct Timestamp {
    pub secs: i64,
    pub nanos: u32,
}

impl Timestamp {
    /// `self` is strictly earlier than `other`.
    pub open spec fn spec_is_before(&self, other: &Timestamp) -> bool {
        self.secs < other.secs || (self.secs == other.secs && self.nanos < other.nanos)
    }

    /// The instant `secs` seconds after `self`, or the last second that can be
    /// written where that would lie beyond it.
    pub open spec fn spec_plus_secs(&self, secs: u32) -> Timestamp {
        Timestamp {
            secs: if self.secs + secs <= i64::MAX {
                (self.secs + secs) as i64
            } else {
                i64::MAX
            },
            nanos: self.nanos,
        }
    }

    #[verifier::when_used_as_spec(spec_is_before)]
    pub fn is_before(&self, other: &Timestamp) -> (b: bool)
        ensures
            b == self.spec_is_before(other),
    {
        self.secs < other.secs || (self.secs == other.secs && self.nanos < other.nanos)
    }

    #[verifier::when_used_as_spec(spec_plus_secs)]
    pub fn plus_secs(&self, secs: u32) -> (later: Timestamp)
        ensures
            later == self.spec_plus_secs(secs),
    {
        let step: i64 = secs as i64;
        let at: i64 = if self.secs <= i64::MAX - step {
            self.secs + step
        } else {
            i64::MAX
        };
        Timestamp { secs: at, nanos: self.nanos }
    }
}

/// Reads the wall clock with `chrono::Utc::now` and splits the result with
/// `timestamp` and `timestamp_subsec_nanos`. Nothing is claimed of the value:
/// two readings may differ in any way. `chrono` panics where the system clock
/// stands before the Unix epoch.
#[verifier::external_body]
pub(crate) fn utc_now() -> Timestamp {
    let now = chrono::Utc::now();
    Timestamp { secs: now.timestamp(), nanos: now.timestamp_subsec_nanos() }
}

} // verus!
