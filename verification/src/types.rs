//! Common types used across the Polygon.io API.

use vstd::prelude::*;
use crate::text::{nat_text};

verus! {

/// Standard API response wrapper used by most Polygon.io endpoints
#[derive(Debug, Clone)]
pub struct ApiResponse<T> {
    /// The status of the response
    pub status: String,
    /// Unique request identifier
    pub request_id: String,
    /// Number of results returned
    pub count: Option<i32>,
    /// The actual data results
    pub results: Option<T>,
    /// Next page URL for paginated responses
    pub next_url: Option<String>,
}

/// Pagination parameters for API requests
#[derive(Debug, Clone, Default)]
pub struct PaginationParams {
    /// Number of results to return per page
    pub limit: Option<i32>,
    /// Sort order for results
    pub sort: Option<String>,
    /// Cursor for pagination
    pub cursor: Option<String>,
}

/// Exchange information
#[derive(Debug, Clone)]
pub struct Exchange {
    /// Exchange ID
    pub id: i32,
    /// Exchange type
    pub exchange_type: String,
    /// Market identifier code
    pub mic: Option<String>,
    /// Exchange name
    pub name: String,
    /// Exchange tape
    pub tape: Option<String>,
}

// ---------------------------------------------------------------------------
// Calendar dates
// ---------------------------------------------------------------------------

/// Leap years of the proleptic Gregorian calendar.
pub open spec fn is_leap_year(y: int) -> bool {
    (y % 4 == 0 && y % 100 != 0) || y % 400 == 0
}

/// Number of days of month `m` in year `y`.
pub open spec fn days_in_month(y: int, m: int) -> int {
    if m == 2 {
        if is_leap_year(y) {
            29
        } else {
            28
        }
    } else if m == 4 || m == 6 || m == 9 || m == 11 {
        30
    } else {
        31
    }
}

/// A day that exists in the proleptic Gregorian calendar, within the range
/// of years that chrono's `NaiveDate` represents.
pub open spec fn valid_calendar_date(y: int, m: int, d: int) -> bool {
    &&& -262143 <= y <= 262142
    &&& 1 <= m <= 12
    &&& 1 <= d <= days_in_month(y, m)
}

/// `n` in decimal, padded with leading zeros to at least `width` digits.
pub open spec fn zero_padded(n: nat, width: nat) -> Seq<char> {
    let t = nat_text(n);
    if t.len() < width {
        Seq::new((width - t.len()) as nat, |i: int| '0') + t
    } else {
        t
    }
}

/// The year as `%Y` writes it: four digits at least, with a sign before
/// years below 0 or above 9999.
pub open spec fn year_text(y: int) -> Seq<char> {
    if 0 <= y <= 9999 {
        zero_padded(y as nat, 4)
    } else if y < 0 {
        seq!['-'] + zero_padded((-y) as nat, 4)
    } else {
        seq!['+'] + zero_padded(y as nat, 4)
    }
}

/// The date as `%Y-%m-%d` writes it.
pub open spec fn iso_date_text(y: int, m: int, d: int) -> Seq<char> {
    year_text(y) + seq!['-'] + zero_padded(m as nat, 2) + seq!['-'] + zero_padded(d as nat, 2)
}

/// Whether chrono accepts the calendar date: calls
/// `chrono::NaiveDate::from_ymd_opt(year, month, day)` and tells whether it
/// gave a date.  Its source returns `None` exactly for a month outside
/// 1..=12, a day that the month does not have (leap years included), or a
/// year outside `-262143..=262142`, which is what the contract states.
#[verifier::external_body]
fn chrono_accepts_date(year: i32, month: u32, day: u32) -> (r: bool)
    ensures
        r == valid_calendar_date(year as int, month as int, day as int),
{
    chrono::NaiveDate::from_ymd_opt(year, month, day).is_some()
}

/// The date's `%Y-%m-%d` text: builds the date with
/// `chrono::NaiveDate::from_ymd_opt` (which succeeds on valid dates) and
/// renders it with chrono's `format("%Y-%m-%d")`.  chrono's documentation and
/// source give `%Y` as the year zero-padded to four digits, with a sign
/// before years outside 0..=9999, and `%m`, `%d` as two zero-padded digits.
#[verifier::external_body]
fn chrono_format_date(year: i32, month: u32, day: u32) -> (r: String)
    requires
        valid_calendar_date(year as int, month as int, day as int),
    ensures
        r@ == iso_date_text(year as int, month as int, day as int),
{
    chrono::NaiveDate::from_ymd_opt(year, month, day).unwrap().format("%Y-%m-%d").to_string()
}

/// A calendar date (year, month, day) as chrono's `NaiveDate` represents it.
#[derive(Debug, Clone, Copy, PartialEq, Eq, Structural)]
pub struct CalendarDate {
    year: i32,
    month: u32,
    day: u32,
}

impl CalendarDate {
    #[verifier::type_invariant]
    spec fn exists_in_calendar(self) -> bool {
        valid_calendar_date(self.year as int, self.month as int, self.day as int)
    }

    /// The year.
    pub closed spec fn spec_year(self) -> int {
        self.year as int
    }

    /// The month (1 to 12).
    pub closed spec fn spec_month(self) -> int {
        self.month as int
    }

    /// The day of the month.
    pub closed spec fn spec_day(self) -> int {
        self.day as int
    }

    /// The date with the given year, month and day, or `None` when that day
    /// does not exist (or lies outside chrono's range of years).
    pub fn from_ymd(year: i32, month: u32, day: u32) -> (r: Option<Self>)
        ensures
            r is Some <==> valid_calendar_date(year as int, month as int, day as int),
            r matches Some(d) ==> d.spec_year() == year && d.spec_month() == month
                && d.spec_day() == day,
    {
        if chrono_accepts_date(year, month, day) {
            Some(CalendarDate { year, month, day })
        } else {
            None
        }
    }

    /// The year.
    pub fn year(&self) -> (r: i32)
        ensures
            r == self.spec_year(),
    {
        self.year
    }

    /// The month (1 to 12).
    pub fn month(&self) -> (r: u32)
        ensures
            r == self.spec_month(),
    {
        self.month
    }

    /// The day of the month.
    pub fn day(&self) -> (r: u32)
        ensures
            r == self.spec_day(),
    {
        self.day
    }

    /// The date as `YYYY-MM-DD` (chrono's `%Y-%m-%d`).
    pub fn iso_text(&self) -> (r: String)
        ensures
            r@ == iso_date_text(self.spec_year(), self.spec_month(), self.spec_day()),
            valid_calendar_date(self.spec_year(), self.spec_month(), self.spec_day()),
    {
        proof {
            use_type_invariant(self);
        }
        chrono_format_date(self.year, self.month, self.day)
    }
}

/// Date range parameters for time-based queries
#[derive(Debug, Clone)]
pub struct DateRange {
    /// Start date (inclusive)
    pub from: Option<CalendarDate>,
    /// End date (inclusive)
    pub to: Option<CalendarDate>,
}

// ---------------------------------------------------------------------------
// Timestamps
// ---------------------------------------------------------------------------

/// Seconds from the Unix epoch to the first instant chrono represents:
/// January 1, 262144 BCE (proleptic year -262143), 00:00:00 UTC.
pub open spec fn min_timestamp() -> int {
    -8_334_601_228_800
}

/// Seconds from the Unix epoch to the last whole second chrono represents:
/// December 31, 262142 CE, 23:59:59 UTC.
pub open spec fn max_timestamp() -> int {
    8_210_266_876_799
}

/// Whether chrono has a UTC date-time at `secs` seconds and `nsecs`
/// nanoseconds after the Unix epoch: the seconds fall within chrono's range of
/// dates, and the nanoseconds are below one second, or below two seconds on
/// the last second of a minute (a leap second).
pub open spec fn chrono_timestamp_exists(secs: int, nsecs: int) -> bool {
    &&& min_timestamp() <= secs <= max_timestamp()
    &&& nsecs < 2_000_000_000
    &&& (nsecs < 1_000_000_000 || secs % 60 == 59)
}

/// Calls `chrono::DateTime::<Utc>::from_timestamp(secs, nsecs)` and tells
/// whether it gave a date-time.  From its source: the day
/// (`secs.div_euclid(86_400)` from the epoch) must be a date of chrono's
/// range, years -262143 to 262142 (`NaiveDate::from_num_days_from_ce_opt`),
/// and `NaiveTime::from_num_seconds_from_midnight_opt` takes nanoseconds below
/// 2,000,000,000, those of 1,000,000,000 or more only on a second that ends a
/// minute.
#[verifier::external_body]
fn chrono_has_timestamp(secs: i64, nsecs: u32) -> (r: bool)
    ensures
        r == chrono_timestamp_exists(secs as int, nsecs as int),
{
    chrono::DateTime::from_timestamp(secs, nsecs).is_some()
}

/// A UTC date-time that chrono represents, given as seconds and nanoseconds
/// after the Unix epoch (chrono's `DateTime<Utc>` holds the same instant).
#[derive(Debug, Clone, Copy, PartialEq, Eq, Structural)]
pub struct UtcDateTime {
    secs: i64,
    nsecs: u32,
}

impl UtcDateTime {
    #[verifier::type_invariant]
    spec fn known_to_chrono(self) -> bool {
        chrono_timestamp_exists(self.secs as int, self.nsecs as int)
    }

    /// Whole seconds since the Unix epoch.
    pub closed spec fn spec_secs(self) -> int {
        self.secs as int
    }

    /// Nanoseconds past the whole second.
    pub closed spec fn spec_nsecs(self) -> int {
        self.nsecs as int
    }

    /// The date-time `secs` seconds and `nsecs` nanoseconds after the epoch,
    /// or `None` when chrono has no such date-time.
    pub fn from_timestamp(secs: i64, nsecs: u32) -> (r: Option<Self>)
        ensures
            r is Some <==> chrono_timestamp_exists(secs as int, nsecs as int),
            r matches Some(t) ==> t.spec_secs() == secs && t.spec_nsecs() == nsecs,
    {
        if chrono_has_timestamp(secs, nsecs) {
            Some(UtcDateTime { secs, nsecs })
        } else {
            None
        }
    }

    /// Whole seconds since the Unix epoch.
    pub fn timestamp(&self) -> (r: i64)
        ensures
            r == self.spec_secs(),
    {
        self.secs
    }

    /// Nanoseconds past the whole second.
    pub fn timestamp_subsec_nanos(&self) -> (r: u32)
        ensures
            r == self.spec_nsecs(),
    {
        self.nsecs
    }
}

/// Timestamp with nanosecond precision as used by Polygon.io
#[derive(Debug, Clone)]
pub struct PolygonTimestamp(pub i64);

impl PolygonTimestamp {
    /// Create a new timestamp from nanoseconds since epoch
    pub fn from_nanos(nanos: i64) -> (r: Self)
        ensures
            r.0 == nanos,
    {
        PolygonTimestamp(nanos)
    }

    /// Convert to a UTC date-time: the instant `self.0` nanoseconds after the
    /// epoch, as whole seconds (rounded down) and the nanoseconds past them.
    /// Every `i64` count of nanoseconds lies well inside chrono's range of
    /// dates, so there always is one.
    pub fn to_datetime(&self) -> (r: Option<UtcDateTime>)
        ensures
            r matches Some(t) && t.spec_secs() == self.0 as int / 1_000_000_000
                && t.spec_nsecs() == self.0 as int % 1_000_000_000,
    {
        let n = self.0;
        let secs: i64;
        let nsecs: u32;
        if n >= 0 {
            secs = n / 1_000_000_000;
            nsecs = (n % 1_000_000_000) as u32;
        } else {
            let m: i128 = -(n as i128);
            let q: i128 = m / 1_000_000_000;
            let rem: i128 = m % 1_000_000_000;
            if rem == 0 {
                secs = (-q) as i64;
                nsecs = 0;
            } else {
                secs = (-q - 1) as i64;
                nsecs = (1_000_000_000 - rem) as u32;
            }
        }
        assert(secs == n as int / 1_000_000_000 && nsecs == n as int % 1_000_000_000);
        if chrono_has_timestamp(secs, nsecs) {
            Some(UtcDateTime { secs, nsecs })
        } else {
            None
        }
    }

    /// Get the raw nanoseconds value
    pub fn nanos(&self) -> (r: i64)
        ensures
            r == self.0,
    {
        self.0
    }
}

/// A timestamp reads back as the nanoseconds it was made from.
pub proof fn law_timestamp_roundtrip(nanos: i64)
    ensures
        PolygonTimestamp(nanos).0 == nanos,
{
}

} // verus!
