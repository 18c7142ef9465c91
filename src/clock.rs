//! Instants of UTC wall-clock time, and what chrono computes on them.

use vstd::prelude::*;

use chrono::{DateTime, Utc};

verus! {

/// Nanoseconds in one second.
pub const NANOS_PER_SEC: u32 = 1_000_000_000;

/// Nanoseconds in one millisecond.
pub const NANOS_PER_MILLI: u32 = 1_000_000;

/// The earliest second that chrono represents: January 1, 262144 BCE, 00:00:00 UTC.
pub const MIN_SECS: i64 = -8_334_601_228_800;

/// The latest second that chrono represents: December 31, 262142 CE, 23:59:59 UTC.
pub const MAX_SECS: i64 = 8_210_266_876_799;

/// An instant of UTC time: whole seconds since 1970-01-01 00:00:00 UTC (no leap
/// seconds counted) and the nanoseconds past that second.
#[derive(Copy, Clone, Debug, PartialEq, Eq, Structural, PartialOrd, Ord, Hash)]
pub struct Timestamp {
    pub secs: i64,
    pub nanos: u32,
}

impl Timestamp {
    /// The instant lies in chrono's range and its nanoseconds are below one second.
    pub open spec fn wf(self) -> bool {
        &&& MIN_SECS <= self.secs <= MAX_SECS
        &&& self.nanos < NANOS_PER_SEC
    }

    /// Nanoseconds since 1970-01-01 00:00:00 UTC.
    pub open spec fn total_nanos(self) -> int {
        self.secs * NANOS_PER_SEC + self.nanos
    }

    /// Makes the instant `secs` seconds and `nanos` nanoseconds after the epoch,
    /// if it is well formed.
    pub fn new(secs: i64, nanos: u32) -> (r: Option<Timestamp>)
        ensures
            r is Some <==> (Timestamp { secs, nanos }).wf(),
            r is Some ==> r->0 == (Timestamp { secs, nanos }),
    {
        if MIN_SECS <= secs && secs <= MAX_SECS && nanos < NANOS_PER_SEC {
            Some(Timestamp { secs, nanos })
        } else {
            None
        }
    }

    /// Whether the instant is well formed.
    pub fn is_valid(&self) -> (r: bool)
        ensures
            r == self.wf(),
    {
        MIN_SECS <= self.secs && self.secs <= MAX_SECS && self.nanos < NANOS_PER_SEC
    }
}

/// Whole milliseconds from `earlier` to `later`, truncated toward zero: negative when
/// `later` comes first.
pub open spec fn millis_between(later: Timestamp, earlier: Timestamp) -> int {
    let d = later.total_nanos() - earlier.total_nanos();
    if d >= 0 {
        d / (NANOS_PER_MILLI as int)
    } else {
        -((-d) / (NANOS_PER_MILLI as int))
    }
}

/// Relies on chrono's `Utc::now`, which reads the system clock, and on
/// `DateTime::timestamp` / `DateTime::timestamp_subsec_nanos`, which give back the
/// seconds and nanoseconds it was built from. `Utc::now` builds its value with
/// `DateTime::from_timestamp` from a `Duration` since the epoch, whose nanoseconds are
/// below one second, and unwraps it, so what it returns lies in chrono's range.
#[verifier::external_body]
pub(crate) fn now_utc() -> (r: Timestamp)
    ensures
        r.wf(),
{
    let now = Utc::now();
    Timestamp { secs: now.timestamp(), nanos: now.timestamp_subsec_nanos() }
}

/// Relies on chrono's `DateTime::from_timestamp`, which succeeds on every well-formed
/// instant, and on `DateTime::signed_duration_since` followed by
/// `TimeDelta::num_milliseconds`: the exact difference, in whole milliseconds
/// truncated toward zero.
#[verifier::external_body]
pub(crate) fn signed_millis_since(later: &Timestamp, earlier: &Timestamp) -> (r: i64)
    requires
        later.wf(),
        earlier.wf(),
    ensures
        r as int == millis_between(*later, *earlier),
{
    let later = DateTime::from_timestamp(later.secs, later.nanos).unwrap();
    let earlier = DateTime::from_timestamp(earlier.secs, earlier.nanos).unwrap();
    later.signed_duration_since(earlier).num_milliseconds()
}

} // verus!
