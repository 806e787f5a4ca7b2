use chrono::TimeZone;
use vstd::prelude::*;

verus! {

/// A wall-clock instant with the UTC offset it was observed in.
///
/// `timestamp` counts whole seconds since 1970-01-01T00:00:00Z; `offset` is
/// the local time minus UTC, in seconds.
#[derive(Debug, PartialEq, Eq, Structural, Copy, Clone)]
pub struct LocalDateTime {
    pub timestamp: i64,
    pub offset: i32,
}

/// 9999-12-31T23:59:59Z, the last instant of the four-digit years.
pub const LAST_FOUR_DIGIT_YEAR_SECOND: i64 = 253_402_300_799;

/// The RFC 3339 text that chrono writes for an instant shown at an offset.
pub uninterp spec fn rfc3339_text(timestamp: i64, offset: i32) -> Seq<char>;

/// What chrono's `%+` (RFC 3339 / ISO 8601) parser reads from a text, as
/// whole seconds since the epoch and the offset written in it.
pub uninterp spec fn parsed_rfc3339(s: Seq<char>) -> Option<(i64, i32)>;

/// Relies on chrono's `Local::now`: the current time and the local offset,
/// which chrono keeps strictly within one day of UTC.
#[verifier::external_body]
fn clock_now() -> (r: (i64, i32))
    ensures
        -86_400 < r.1 < 86_400,
{
    let now = chrono::Local::now().fixed_offset();
    (now.timestamp(), now.offset().local_minus_utc())
}

/// Relies on chrono's `DateTime::to_rfc3339`, after `DateTime::from_timestamp`
/// and `FixedOffset::east_opt`: the offset must lie strictly within a day, and
/// `from_timestamp` accepts every instant from 1970 through year 9999. The
/// text carries no fraction (the instant is whole seconds) and the offset to
/// the minute, and the `%+` parser (`parse_rfc3339_relaxed`, which takes
/// signed years too) reads such text back to the same instant and offset.
#[verifier::external_body]
fn write_rfc3339(timestamp: i64, offset: i32) -> (r: Option<String>)
    ensures
        r matches Some(t) ==> t@ == rfc3339_text(timestamp, offset),
        !(-86_400 < offset < 86_400) ==> r is None,
        -86_400 < offset < 86_400 && 0 <= timestamp <= LAST_FOUR_DIGIT_YEAR_SECOND ==> r is Some,
        r matches Some(t) ==> (offset % 60 == 0 && 0 <= timestamp <= LAST_FOUR_DIGIT_YEAR_SECOND
            ==> parsed_rfc3339(t@) == Some((timestamp, offset))),
{
    let zone = chrono::FixedOffset::east_opt(offset)?;
    let instant = chrono::DateTime::from_timestamp(timestamp, 0)?;
    Some(instant.with_timezone(&zone).to_rfc3339())
}

/// Relies on chrono's `Local` time zone (`TimeZone::timestamp_opt`,
/// `DateTime::date_naive`, `NaiveDate::and_hms_opt`,
/// `TimeZone::from_local_datetime`): the first and the last second of the
/// local calendar day that holds `timestamp`. Nothing is promised of them.
#[verifier::external_body]
fn local_day_bounds(timestamp: i64) -> (r: Option<(i64, i64)>) {
    let day = chrono::Local.timestamp_opt(timestamp, 0).single()?.date_naive();
    let start = chrono::Local.from_local_datetime(&day.and_hms_opt(0, 0, 0)?).earliest()?;
    let end = chrono::Local.from_local_datetime(&day.and_hms_opt(23, 59, 59)?).latest()?;
    Some((start.timestamp(), end.timestamp()))
}

/// Relies on chrono's `DateTime::parse_from_str` with the `%+` format; a
/// parsed offset is a `FixedOffset`, strictly within one day of UTC.
#[verifier::external_body]
fn read_rfc3339(s: &str) -> (r: Option<(i64, i32)>)
    ensures
        r == parsed_rfc3339(s@),
        r matches Some(p) ==> -86_400 < p.1 < 86_400,
{
    match chrono::DateTime::parse_from_str(s, "%+") {
        Ok(d) => Some((d.timestamp(), d.offset().local_minus_utc())),
        Err(_) => None,
    }
}

impl LocalDateTime {
    /// The offset is one that a time zone can have.
    pub open spec fn wf(self) -> bool {
        -86_400 < self.offset < 86_400
    }

    /// The text form keeps this instant exactly: the offset is whole minutes
    /// and the instant lies from 1970 through year 9999.
    pub open spec fn round_trips(self) -> bool {
        self.offset % 60 == 0 && 0 <= self.timestamp <= LAST_FOUR_DIGIT_YEAR_SECOND
    }

    /// Builds an instant; `None` when the offset is a day or more away from UTC.
    pub fn new(timestamp: i64, offset: i32) -> (r: Option<LocalDateTime>)
        ensures
            r == (if -86_400 < offset < 86_400 {
                Some(LocalDateTime { timestamp, offset })
            } else {
                None
            }),
    {
        if -86_400 < offset && offset < 86_400 {
            Some(LocalDateTime { timestamp, offset })
        } else {
            None
        }
    }

    /// The current time, in the machine's local offset.
    pub fn now() -> (r: LocalDateTime)
        ensures
            r.wf(),
    {
        let (timestamp, offset) = clock_now();
        LocalDateTime { timestamp, offset }
    }

    /// The RFC 3339 text of this instant at its own offset; `None` when the
    /// offset is out of range or the instant cannot be written.
    pub fn to_rfc3339(&self) -> (r: Option<String>)
        ensures
            r matches Some(t) ==> t@ == rfc3339_text(self.timestamp, self.offset),
            !self.wf() ==> r is None,
            self.wf() && 0 <= self.timestamp <= LAST_FOUR_DIGIT_YEAR_SECOND ==> r is Some,
            r matches Some(t) ==> (self.round_trips() ==> LocalDateTime::from_parsed_spec(
                parsed_rfc3339(t@),
            ) == Some(*self)),
    {
        write_rfc3339(self.timestamp, self.offset)
    }

    /// `bounds` when it is a span that holds `now`, else `None`.
    pub open spec fn window_around(bounds: Option<(i64, i64)>, now: i64) -> Option<(i64, i64)> {
        match bounds {
            Some((start, end)) => if start <= now <= end {
                bounds
            } else {
                None
            },
            None => None,
        }
    }

    /// Keeps a pair of day bounds only when it holds `now`.
    pub fn checked_window(bounds: Option<(i64, i64)>, now: i64) -> (r: Option<(i64, i64)>)
        ensures
            r == LocalDateTime::window_around(bounds, now),
    {
        match bounds {
            Some((start, end)) => if start <= now && now <= end {
                bounds
            } else {
                None
            },
            None => None,
        }
    }

    /// The first and last second of the local calendar day that holds `now`
    /// (seconds since the epoch), by the machine's time zone; `None` where
    /// the zone gives no such day.
    pub fn local_day_window(now: i64) -> (r: Option<(i64, i64)>)
        ensures
            r matches Some(w) ==> w.0 <= now <= w.1,
    {
        LocalDateTime::checked_window(local_day_bounds(now), now)
    }

    /// The instant that a parser result stands for.
    pub open spec fn from_parsed_spec(p: Option<(i64, i32)>) -> Option<LocalDateTime> {
        match p {
            Some((timestamp, offset)) => Some(LocalDateTime { timestamp, offset }),
            None => None,
        }
    }

    /// Turns what the RFC 3339 parser read into an instant.
    pub fn from_parsed(p: Option<(i64, i32)>) -> (r: Option<LocalDateTime>)
        ensures
            r == LocalDateTime::from_parsed_spec(p),
    {
        match p {
            Some((timestamp, offset)) => Some(LocalDateTime { timestamp, offset }),
            None => None,
        }
    }

    /// Reads an instant from RFC 3339 text, keeping the offset written in it.
    /// A fraction of a second is dropped.
    pub fn parse_rfc3339(s: &str) -> (r: Option<LocalDateTime>)
        ensures
            r == LocalDateTime::from_parsed_spec(parsed_rfc3339(s@)),
            r matches Some(t) ==> t.wf(),
    {
        LocalDateTime::from_parsed(read_rfc3339(s))
    }
}

} // verus!
