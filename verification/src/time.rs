//! Points in time as the tracker reads them: whole seconds since the Unix
//! epoch and the nanoseconds past that second.

use vstd::prelude::*;

verus! {

/// Nanoseconds in one second.
pub const NANOS_PER_SECOND: u32 = 1_000_000_000;

/// A point in time on the UTC time line.
///
/// Two timestamps are ordered by `nanos_since_epoch`; the pair itself is what
/// the calendar formatting is given.
#[derive(Clone, Copy, Debug, PartialEq, Eq, Structural)]
pub struct Timestamp {
    /// Whole non-leap seconds since 1970-01-01T00:00:00Z.
    pub secs: i64,
    /// Nanoseconds since the last whole second.
    pub nanos: u32,
}

/// The RFC 3339 text of the UTC date and time that lies `secs` seconds and
/// `nanos` nanoseconds after the Unix epoch, or `None` where the calendar
/// cannot hold that point.
pub uninterp spec fn rfc3339_text(secs: i64, nanos: u32) -> Option<Seq<char>>;

impl Timestamp {
    /// The position on the time line, in nanoseconds since the Unix epoch.
    pub open spec fn nanos_since_epoch(self) -> int {
        self.secs * 1_000_000_000 + self.nanos
    }

    /// Whether this point lies strictly before `other`.
    pub open spec fn precedes(self, other: Timestamp) -> bool {
        self.nanos_since_epoch() < other.nanos_since_epoch()
    }

    /// Whether this point lies at or before `other`.
    pub open spec fn at_or_before(self, other: Timestamp) -> bool {
        self.nanos_since_epoch() <= other.nanos_since_epoch()
    }

    /// Nanoseconds from `self` to `later`; negative where `later` is earlier.
    pub open spec fn nanos_until(self, later: Timestamp) -> int {
        later.nanos_since_epoch() - self.nanos_since_epoch()
    }

    /// The RFC 3339 text of this point, where the calendar can hold it.
    pub open spec fn text(self) -> Option<Seq<char>> {
        rfc3339_text(self.secs, self.nanos)
    }

    pub fn new(secs: i64, nanos: u32) -> (t: Timestamp)
        ensures
            t.secs == secs,
            t.nanos == nanos,
    {
        Timestamp { secs, nanos }
    }

    /// The position on the time line as a machine integer.
    pub fn total_nanos(&self) -> (n: i128)
        ensures
            n == self.nanos_since_epoch(),
    {
        let whole: i128 = self.secs as i128;
        let part: i128 = self.nanos as i128;
        whole * 1_000_000_000 + part
    }

    pub fn is_before(&self, other: &Timestamp) -> (before: bool)
        ensures
            before == self.precedes(*other),
    {
        self.total_nanos() < other.total_nanos()
    }

    /// Nanoseconds from `self` to `later`.
    pub fn elapsed_nanos(&self, later: &Timestamp) -> (n: i128)
        ensures
            n == self.nanos_until(*later),
    {
        later.total_nanos() - self.total_nanos()
    }

    /// Reads the system clock. Whatever the clock says, before 1970 or
    /// after, the reading is a whole second and less than a second's
    /// nanoseconds past it, and the calendar can hold it: it has an RFC 3339
    /// text.
    pub fn now() -> (t: Timestamp)
        ensures
            t.nanos < NANOS_PER_SECOND,
            t.text() is Some,
    {
        let (secs, nanos) = utc_now();
        Timestamp { secs, nanos }
    }

    /// The RFC 3339 text of this point, such as
    /// `2024-01-01T00:00:00+00:00`; `None` where the calendar cannot hold it.
    pub fn to_rfc3339(&self) -> (text: Option<String>)
        ensures
            text is Some <==> self.text() is Some,
            text matches Some(s) ==> self.text() == Some(s@),
    {
        rfc3339(self.secs, self.nanos)
    }
}

/// `std::time::SystemTime::now`, turned into a `chrono::DateTime<Utc>` by
/// chrono's conversion from `SystemTime` and handed on as the seconds and the
/// nanoseconds of that moment. The conversion takes a clock that stands
/// before 1970 as well as one that stands after. Which moment is read is not
/// claimed. Two things hold of every moment that comes back. Its nanoseconds
/// are the sub-second part of a `std::time::Duration`, or a billion less such
/// a part that is not zero: fewer than a billion either way. And it is a date
/// and time of chrono's calendar, which `DateTime::from_timestamp` makes
/// again from these two numbers, so that the pair has an RFC 3339 text. The
/// calendar reaches some 262,000 years to either side of 1970; the
/// conversion does not return for a clock that stands outside it.
#[verifier::external_body]
fn utc_now() -> (parts: (i64, u32))
    ensures
        parts.1 < NANOS_PER_SECOND,
        rfc3339_text(parts.0, parts.1) is Some,
{
    let moment = chrono::DateTime::<chrono::Utc>::from(std::time::SystemTime::now());
    (moment.timestamp(), moment.timestamp_subsec_nanos())
}

/// `chrono::DateTime::from_timestamp` followed by `DateTime::to_rfc3339`.
/// The first returns `None` for a point outside the calendar's range or with
/// an invalid nanosecond part; the second writes the date, the time, the
/// fraction where it is not zero, and the offset `+00:00`. The text depends
/// on the two numbers alone; the contract gives it its name and claims no
/// more.
#[verifier::external_body]
fn rfc3339(secs: i64, nanos: u32) -> (text: Option<String>)
    ensures
        text is Some <==> rfc3339_text(secs, nanos) is Some,
        text matches Some(s) ==> rfc3339_text(secs, nanos) == Some(s@),
{
    match chrono::DateTime::from_timestamp(secs, nanos) {
        Some(moment) => Some(moment.to_rfc3339()),
        None => None,
    }
}

} // verus!
