//! Points in time and spans between them, computed by the `chrono` crate.

use chrono::{DateTime, Duration};
use vstd::prelude::*;

verus! {

/// The first second that a point in time can have: the start of the year -262143.
pub const FIRST_SECOND: i64 = -8_334_601_228_800;

/// The last second that a point in time can have: the end of the year 262142.
pub const LAST_SECOND: i64 = 8_210_266_876_799;

/// The number of minutes in the longest span.
pub const MOST_MINUTES: i64 = 153_722_867_280_912;

/// A point in time, in UTC: seconds since the start of 1970, and nanoseconds since the last full
/// second.
#[derive(Clone, Copy, Debug, PartialEq, Eq, Structural)]
pub struct Timestamp {
    pub seconds: i64,
    pub nanos: u32,
}

impl Timestamp {
    /// Whether the calendar reaches that far. A leap second is not such a point in time.
    pub open spec fn is_valid(self) -> bool {
        FIRST_SECOND <= self.seconds <= LAST_SECOND && self.nanos < 1_000_000_000
    }

    /// The point in time `seconds` earlier.
    pub open spec fn earlier_by(self, seconds: int) -> Timestamp {
        Timestamp { seconds: (self.seconds - seconds) as i64, nanos: self.nanos }
    }
}

/// `TimeDelta::minutes` and `TimeDelta::num_seconds` of `chrono`: a minute has sixty seconds. A
/// number of minutes for which the span would be out of bounds, on which the first panics, is left
/// out.
#[verifier::external_body]
pub(crate) fn minutes_in_seconds(minutes: i64) -> (seconds: i64)
    requires
        -MOST_MINUTES <= minutes <= MOST_MINUTES,
    ensures
        seconds == minutes * 60,
{
    Duration::minutes(minutes).num_seconds()
}

/// Subtraction of a `TimeDelta::seconds` from a `NaiveDateTime` of `chrono`, between points in time
/// that the calendar reaches: it goes back that many seconds and keeps the nanoseconds. A result
/// that the calendar does not reach, on which it panics, is left out.
#[verifier::external_body]
pub(crate) fn seconds_before(now: Timestamp, seconds: i64) -> (then: Timestamp)
    requires
        now.is_valid(),
        0 <= seconds,
        FIRST_SECOND <= now.seconds - seconds,
    ensures
        then == now.earlier_by(seconds as int),
        then.is_valid(),
{
    let now = DateTime::from_timestamp(now.seconds, now.nanos).unwrap().naive_utc();
    let then = (now - Duration::seconds(seconds)).and_utc();
    Timestamp { seconds: then.timestamp(), nanos: then.timestamp_subsec_nanos() }
}

} // verus!
