//! Points in time.

use vstd::prelude::*;

verus! {

/// A point in time, counted from the start of 1970 in UTC.
#[derive(Clone, Copy, Debug, PartialEq, Eq, Structural)]
pub struct Timestamp {
    pub secs: i64,
    pub nanos: u32,
}

/// The last second of the calendar.
pub const LAST_SECOND: i64 = 8_210_266_876_799;

impl Timestamp {
    /// Whether this is a point in time that the clock can show.
    pub open spec fn on_the_clock(&self) -> bool {
        0 <= self.secs <= LAST_SECOND && self.nanos < 1_000_000_000
    }
}

/// A point in time, given by seconds and nanoseconds, as RFC 3339 writes it in UTC.
pub uninterp spec fn rfc3339(secs: i64, nanos: u32) -> Seq<char>;

/// Calls `chrono::Utc::now`, which shows a time from 1970 up to the end of its calendar. It does
/// not return where the clock of the machine is set to a time outside of these.
#[verifier::external_body]
fn utc_now() -> (now: (i64, u32))
    ensures
        0 <= now.0 <= LAST_SECOND,
        now.1 < 1_000_000_000,
{
    let now = chrono::Utc::now();
    (now.timestamp(), now.timestamp_subsec_nanos())
}

/// Calls `to_rfc3339` on the `chrono::DateTime<Utc>` that `from_timestamp` makes of seconds and
/// nanoseconds. The text is a function of the two.
#[verifier::external_body]
fn utc_to_rfc3339(secs: i64, nanos: u32) -> (s: String)
    requires
        0 <= secs <= LAST_SECOND,
        nanos < 1_000_000_000,
    ensures
        s@ == rfc3339(secs, nanos),
{
    chrono::DateTime::from_timestamp(secs, nanos).expect("a time on the calendar").to_rfc3339()
}

impl Timestamp {
    /// The current time. Which one that is rests with the clock of the machine, and is not stated.
    pub fn now() -> (now: Timestamp)
        ensures
            now.on_the_clock(),
    {
        let (secs, nanos) = utc_now();
        Timestamp { secs, nanos }
    }

    /// This point in time as RFC 3339 writes it.
    pub fn to_rfc3339(&self) -> (s: String)
        requires
            self.on_the_clock(),
        ensures
            s@ == rfc3339(self.secs, self.nanos),
    {
        utc_to_rfc3339(self.secs, self.nanos)
    }
}

} // verus!
