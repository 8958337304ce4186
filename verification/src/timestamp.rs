//! Moments in time as plain numbers, and the "timestamp or latest" marker
//! that paging requests carry.

use chrono::TimeZone;
use crate::ids::parse_i64_std;
use crate::text::{format_i64, int_decimal, parse_i64_spec, str_eq, text_of};
use vstd::prelude::*;

verus! {

/// A moment: whole seconds since 1970-01-01T00:00:00Z, the nanoseconds past
/// that second, and the offset, in seconds east of UTC, of the zone the
/// moment is written in.
#[derive(Debug, Clone, Copy, PartialEq, Eq, Structural)]
pub struct Timestamp {
    pub secs: i64,
    pub nanos: u32,
    pub offset: i32,
}

/// The first second that the calendar holds: the start of the year -262143.
pub const FIRST_SECOND: i64 = -8_334_601_228_800;

/// The last second that the calendar holds: the end of the year 262142.
pub const LAST_SECOND: i64 = 8_210_266_876_799;

/// Whether the calendar can hold the moment `secs` seconds after the epoch:
/// it lies in the years from -262143 to 262142, which are the years that
/// chrono has dates for.
pub open spec fn calendar_holds(secs: int) -> bool {
    FIRST_SECOND <= secs <= LAST_SECOND
}

/// The moment written after RFC 3339, where the calendar can hold it: what
/// chrono's `to_rfc3339` writes for it.
pub uninterp spec fn rfc3339_text(secs: int, nanos: int, offset: int) -> Option<Seq<char>>;

/// Asks chrono's `TimeZone::timestamp_opt`, on `Utc` and with no
/// nanoseconds, whether it has a date and time for `secs`. It has one for
/// the days of the years from -262143 to 262142, and so for the seconds from
/// `FIRST_SECOND` to `LAST_SECOND`.
#[verifier::external_body]
fn utc_timestamp_opt(secs: i64) -> (r: bool)
    ensures
        r == calendar_holds(secs as int),
{
    chrono::Utc.timestamp_opt(secs, 0).single().is_some()
}

/// Writes a moment with chrono's `DateTime::to_rfc3339`, in the zone given by
/// the offset. `None` where chrono has no date for the seconds and
/// nanoseconds or no zone for the offset. The text depends on the three
/// numbers alone.
#[verifier::external_body]
fn chrono_rfc3339(secs: i64, nanos: u32, offset: i32) -> (r: Option<String>)
    ensures
        text_of(r) == rfc3339_text(secs as int, nanos as int, offset as int),
{
    let zone = chrono::FixedOffset::east_opt(offset)?;
    let utc = chrono::DateTime::from_timestamp(secs, nanos)?;
    Some(utc.with_timezone(&zone).to_rfc3339())
}

/// The moment that a date after RFC 2822 names, as an HTTP `Date` header
/// writes it, in seconds since the epoch: what chrono's
/// `DateTime::parse_from_rfc2822` reads. `None` where the text is no such
/// date.
pub uninterp spec fn rfc2822_seconds(text: Seq<char>) -> Option<i64>;

/// Reads a date with chrono's `DateTime::parse_from_rfc2822` and takes its
/// `timestamp`. The outcome depends on the text alone.
#[verifier::external_body]
fn chrono_rfc2822(text: &str) -> (r: Option<i64>)
    ensures
        r == rfc2822_seconds(text@),
{
    Some(chrono::DateTime::parse_from_rfc2822(text).ok()?.timestamp())
}

/// The moment that the date of a request names, in seconds since the epoch.
/// `None` where the text is no date after RFC 2822.
pub fn read_http_date(text: &str) -> (r: Option<i64>)
    ensures
        r == rfc2822_seconds(text@),
{
    chrono_rfc2822(text)
}

impl Timestamp {
    /// The moment written after RFC 3339, or `None` where the calendar cannot
    /// hold it.
    pub fn to_rfc3339(&self) -> (r: Option<String>)
        ensures
            text_of(r) == rfc3339_text(
                self.secs as int,
                self.nanos as int,
                self.offset as int,
            ),
    {
        chrono_rfc3339(self.secs, self.nanos, self.offset)
    }

    /// Whole seconds since the epoch.
    pub fn timestamp(&self) -> (r: i64)
        ensures
            r == self.secs,
    {
        self.secs
    }
}

/// A position in a listing that is ordered by time: a moment, or the newest
/// entry.
#[derive(Debug, Clone, Copy, PartialEq, Eq, Structural)]
pub enum TimestampOrLatest {
    Latest,
    Timestamp(Timestamp),
}

/// Why a text is no `TimestampOrLatest`.
#[derive(Debug)]
pub enum TimestampOrLatestParseError {
    /// The text is neither `latest` nor the numeral of a 64-bit integer.
    Number(std::num::ParseIntError),
    /// The calendar cannot hold the moment.
    Timestamp,
}

/// What a text stands for as a position in a listing: `latest`, or a number
/// of seconds that the calendar can hold.
pub open spec fn timestamp_or_latest(src: Seq<char>) -> Option<TimestampOrLatest> {
    if src == "latest"@ {
        Some(TimestampOrLatest::Latest)
    } else {
        match parse_i64_spec(src) {
            Some(secs) => if calendar_holds(secs as int) {
                Some(TimestampOrLatest::Timestamp(Timestamp { secs, nanos: 0, offset: 0 }))
            } else {
                None
            },
            None => None,
        }
    }
}

impl TimestampOrLatest {
    /// Reads `latest`, or a number of seconds since the epoch. A text that is
    /// neither is refused with `Number`, a number of seconds that the calendar
    /// cannot hold with `Timestamp`.
    pub fn from_str(src: &str) -> (r: Result<TimestampOrLatest, TimestampOrLatestParseError>)
        ensures
            match r {
                Ok(v) => timestamp_or_latest(src@) == Some(v),
                Err(TimestampOrLatestParseError::Number(_)) => src@ != "latest"@
                    && parse_i64_spec(src@) is None,
                Err(TimestampOrLatestParseError::Timestamp) => src@ != "latest"@ && (
                parse_i64_spec(src@) matches Some(secs) && !calendar_holds(secs as int)),
            },
    {
        if str_eq(src, "latest") {
            Ok(TimestampOrLatest::Latest)
        } else {
            match parse_i64_std(src) {
                Err(e) => Err(TimestampOrLatestParseError::Number(e)),
                Ok(secs) => {
                    if utc_timestamp_opt(secs) {
                        Ok(TimestampOrLatest::Timestamp(Timestamp { secs, nanos: 0, offset: 0 }))
                    } else {
                        Err(TimestampOrLatestParseError::Timestamp)
                    }
                },
            }
        }
    }

    /// The text of the position: `latest`, or the seconds since the epoch.
    pub open spec fn text(self) -> Seq<char> {
        match self {
            TimestampOrLatest::Latest => "latest"@,
            TimestampOrLatest::Timestamp(ts) => int_decimal(ts.secs as int),
        }
    }

    /// The text of the position: `latest`, or the seconds since the epoch.
    pub fn to_string(&self) -> (s: String)
        ensures
            s@ == self.text(),
    {
        match self {
            TimestampOrLatest::Latest => "latest".to_owned(),
            TimestampOrLatest::Timestamp(ts) => format_i64(ts.timestamp()),
        }
    }
}

/// A position that was read from a text made up of a second count, with no
/// nanoseconds and at offset zero, is written back as the same number; and
/// `latest` as `latest`.
pub proof fn lemma_timestamp_or_latest_round_trip(v: TimestampOrLatest)
    requires
        v matches TimestampOrLatest::Timestamp(ts) ==> calendar_holds(ts.secs as int) && ts.nanos
            == 0 && ts.offset == 0,
    ensures
        timestamp_or_latest(v.text()) == Some(v),
{
    match v {
        TimestampOrLatest::Latest => {},
        TimestampOrLatest::Timestamp(ts) => {
            crate::text::lemma_decimal_round_trip(ts.secs as int);
            crate::text::lemma_nat_decimal(
                if ts.secs < 0 {
                    (-ts.secs) as nat
                } else {
                    ts.secs as nat
                },
            );
            reveal_strlit("latest");
            let s = int_decimal(ts.secs as int);
            assert(s[0] != 'l');
        },
    }
}

} // verus!
