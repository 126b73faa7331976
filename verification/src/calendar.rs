//! Calendar dates and days of the week. The calendar arithmetic itself (day of
//! the week, `%Y-%m-%d` text) and the clock come from `chrono`.

use chrono::{DateTime, Datelike, Local, NaiveDate, Utc};
use std::time::SystemTime;
use crate::text::decimal_digits;
use vstd::prelude::*;

verus! {

/// Proleptic Gregorian leap years.
pub open spec fn is_leap_year(y: int) -> bool {
    (y % 4 == 0 && y % 100 != 0) || y % 400 == 0
}

/// Number of days of month `m` (1 to 12) in year `y`.
pub open spec fn days_in_month(y: int, m: int) -> int {
    if m == 2 {
        if is_leap_year(y) {
            29
        } else {
            28
        }
    } else if m == 4 || m == 6 || m == 9 || m == 11 {
        30
    } else {
        31
    }
}

/// Smallest and largest year that a `chrono::NaiveDate` holds.
pub open spec fn min_year() -> int {
    -262143
}

pub open spec fn max_year() -> int {
    262142
}

/// `(year, month, day)` names a day that exists, in the range of years that
/// `chrono::NaiveDate::from_ymd_opt` accepts.
pub open spec fn is_valid_ymd(y: int, m: int, d: int) -> bool {
    &&& min_year() <= y <= max_year()
    &&& 1 <= m <= 12
    &&& 1 <= d <= days_in_month(y, m)
}

/// A day of the week.
#[derive(Clone, Copy, Debug, PartialEq, Eq, Structural)]
pub enum Weekday {
    Mon,
    Tue,
    Wed,
    Thu,
    Fri,
    Sat,
    Sun,
}

/// The day of the week whose number, counted from Monday as 1, is `n`.
pub open spec fn weekday_numbered(n: int) -> Weekday {
    if n == 1 {
        Weekday::Mon
    } else if n == 2 {
        Weekday::Tue
    } else if n == 3 {
        Weekday::Wed
    } else if n == 4 {
        Weekday::Thu
    } else if n == 5 {
        Weekday::Fri
    } else if n == 6 {
        Weekday::Sat
    } else {
        Weekday::Sun
    }
}

impl Weekday {
    /// The number of this day, counted from Monday as 1.
    pub open spec fn number(self) -> int {
        match self {
            Weekday::Mon => 1,
            Weekday::Tue => 2,
            Weekday::Wed => 3,
            Weekday::Thu => 4,
            Weekday::Fri => 5,
            Weekday::Sat => 6,
            Weekday::Sun => 7,
        }
    }

    /// The day whose number, counted from Monday as 1, is `n`.
    pub fn from_number(n: u32) -> (w: Option<Weekday>)
        ensures
            (1 <= n <= 7) <==> w is Some,
            w matches Some(d) ==> d == weekday_numbered(n as int) && d.number() == n,
    {
        if n == 1 {
            Some(Weekday::Mon)
        } else if n == 2 {
            Some(Weekday::Tue)
        } else if n == 3 {
            Some(Weekday::Wed)
        } else if n == 4 {
            Some(Weekday::Thu)
        } else if n == 5 {
            Some(Weekday::Fri)
        } else if n == 6 {
            Some(Weekday::Sat)
        } else if n == 7 {
            Some(Weekday::Sun)
        } else {
            None
        }
    }

    /// Saturday and Sunday.
    pub open spec fn spec_is_weekend(self) -> bool {
        self == Weekday::Sat || self == Weekday::Sun
    }

    /// Tells whether this is Saturday or Sunday.
    pub fn is_weekend(&self) -> (b: bool)
        ensures
            b == self.spec_is_weekend(),
    {
        match self {
            Weekday::Sat | Weekday::Sun => true,
            _ => false,
        }
    }
}

/// A day of the proleptic Gregorian calendar.
#[derive(Clone, Copy, Debug, PartialEq, Eq)]
pub struct CalendarDate {
    year: i32,
    month: u32,
    day: u32,
}

impl View for CalendarDate {
    type V = (int, int, int);

    closed spec fn view(&self) -> (int, int, int) {
        (self.year as int, self.month as int, self.day as int)
    }
}

/// The day of the week, counted from Monday as 1, of the proleptic Gregorian
/// date `(y, m, d)` (Sakamoto's method: `dow` counts from Sunday as 0).
pub open spec fn weekday_number_of_ymd(y: int, m: int, d: int) -> int {
    let t: int = if m == 1 {
        0
    } else if m == 2 {
        3
    } else if m == 3 {
        2
    } else if m == 4 {
        5
    } else if m == 5 {
        0
    } else if m == 6 {
        3
    } else if m == 7 {
        5
    } else if m == 8 {
        1
    } else if m == 9 {
        4
    } else if m == 10 {
        6
    } else if m == 11 {
        2
    } else {
        4
    };
    let yy = if m < 3 {
        y - 1
    } else {
        y
    };
    let dow = (yy + yy / 4 - yy / 100 + yy / 400 + t + d) % 7;
    if dow == 0 {
        7
    } else {
        dow
    }
}

/// The decimal digits of `n`, with zeros in front up to `width` characters.
pub open spec fn padded_digits(n: nat, width: nat) -> Seq<char> {
    let digits = decimal_digits(n);
    if digits.len() < width {
        Seq::new((width - digits.len()) as nat, |i: int| '0') + digits
    } else {
        digits
    }
}

/// How `%Y` prints a year: four digits with zeros in front for years 0 to
/// 9999, otherwise a sign and at least four digits.
pub open spec fn year_text(y: int) -> Seq<char> {
    if 0 <= y <= 9999 {
        padded_digits(y as nat, 4)
    } else if y > 9999 {
        seq!['+'] + padded_digits(y as nat, 4)
    } else {
        seq!['-'] + padded_digits((-y) as nat, 4)
    }
}

/// The `%Y-%m-%d` text of the date `(y, m, d)`: the year as `%Y` prints it,
/// then the month and the day in two digits each, joined by `-`.
pub open spec fn iso_date_text(y: int, m: int, d: int) -> Seq<char> {
    year_text(y) + seq!['-'] + padded_digits(m as nat, 2) + seq!['-'] + padded_digits(d as nat, 2)
}

/// What `chrono::NaiveDate::parse_from_str(text, "%Y-%m-%d")` reads from `text`,
/// as `(year, month, day)`.
pub uninterp spec fn chrono_parse_iso(text: Seq<char>) -> Option<(i32, u32, u32)>;

/// `chrono::NaiveDate::weekday` then `Weekday::number_from_monday`: the result
/// is the day of the week of the date in the proleptic Gregorian calendar,
/// 1 (Monday) to 7 (Sunday).
#[verifier::external_body]
fn weekday_number_of(year: i32, month: u32, day: u32) -> (n: u32)
    requires
        is_valid_ymd(year as int, month as int, day as int),
    ensures
        n as int == weekday_number_of_ymd(year as int, month as int, day as int),
{
    NaiveDate::from_ymd_opt(year, month, day).unwrap().weekday().number_from_monday()
}

/// `chrono::NaiveDate::format` with `%Y-%m-%d`, then `to_string`. The text
/// parses back, with the same pattern, to the same date (a signed year is read
/// with any number of digits).
#[verifier::external_body]
fn format_iso(year: i32, month: u32, day: u32) -> (s: String)
    requires
        is_valid_ymd(year as int, month as int, day as int),
    ensures
        s@ == iso_date_text(year as int, month as int, day as int),
        chrono_parse_iso(s@) == Some((year, month, day)),
{
    NaiveDate::from_ymd_opt(year, month, day).unwrap().format("%Y-%m-%d").to_string()
}

/// `chrono::NaiveDate::parse_from_str` with `%Y-%m-%d`. A date it reads is a
/// valid `NaiveDate`.
#[verifier::external_body]
fn parse_iso(text: &str) -> (r: Option<(i32, u32, u32)>)
    ensures
        r == chrono_parse_iso(text@),
        r matches Some(t) ==> is_valid_ymd(t.0 as int, t.1 as int, t.2 as int),
{
    NaiveDate::parse_from_str(text, "%Y-%m-%d").ok().map(|d| (d.year(), d.month(), d.day()))
}

/// `chrono::DateTime::<Utc>::from(SystemTime::now())`, then `date_naive`:
/// today's date in UTC, a valid date. The conversion also takes a system
/// clock set before 1970 (where `Utc::now` would panic).
#[verifier::external_body]
fn utc_today_ymd() -> (r: (i32, u32, u32))
    ensures
        is_valid_ymd(r.0 as int, r.1 as int, r.2 as int),
{
    let d = DateTime::<Utc>::from(SystemTime::now()).date_naive();
    (d.year(), d.month(), d.day())
}

/// `chrono::DateTime::<Local>::from(SystemTime::now())`, then `date_naive`:
/// today's date in the machine's time zone, a valid date. The conversion also
/// takes a system clock set before 1970.
#[verifier::external_body]
fn local_today_ymd() -> (r: (i32, u32, u32))
    ensures
        is_valid_ymd(r.0 as int, r.1 as int, r.2 as int),
{
    let d = DateTime::<Local>::from(SystemTime::now()).date_naive();
    (d.year(), d.month(), d.day())
}

/// `chrono::DateTime::<Utc>::from(SystemTime::now())`, then `timestamp`:
/// seconds since the Unix epoch (negative for a clock set before 1970). A
/// `chrono::DateTime` lies within years -262143 to 262142, so the value is
/// below 10^13 in size.
#[verifier::external_body]
pub(crate) fn utc_now_timestamp() -> (t: i64)
    ensures
        -10_000_000_000_000 < t < 10_000_000_000_000,
{
    DateTime::<Utc>::from(SystemTime::now()).timestamp()
}

impl CalendarDate {
    #[verifier::type_invariant]
    spec fn well_formed(self) -> bool {
        is_valid_ymd(self.year as int, self.month as int, self.day as int)
    }

    /// The date is a real day.
    pub closed spec fn is_valid(self) -> bool {
        is_valid_ymd(self@.0, self@.1, self@.2)
    }

    /// The date `year`-`month`-`day`, if that day exists.
    pub fn new(year: i32, month: u32, day: u32) -> (r: Option<CalendarDate>)
        ensures
            r is Some <==> is_valid_ymd(year as int, month as int, day as int),
            r matches Some(d) ==> d@ == (year as int, month as int, day as int),
    {
        if year < -262143 || year > 262142 || month < 1 || month > 12 || day < 1 {
            return None;
        }
        let shifted: u64 = (year as i64 + 400_000) as u64;
        let leap = (shifted % 4 == 0 && shifted % 100 != 0) || shifted % 400 == 0;
        proof {
            let y = year as int;
            assert(shifted == y + 400_000);
            assert((y + 400_000) % 4 == y % 4);
            assert((y + 400_000) % 100 == y % 100);
            assert((y + 400_000) % 400 == y % 400);
            assert(leap == is_leap_year(y));
        }
        let last: u32 = if month == 2 {
            if leap {
                29
            } else {
                28
            }
        } else if month == 4 || month == 6 || month == 9 || month == 11 {
            30
        } else {
            31
        };
        if day > last {
            return None;
        }
        Some(CalendarDate { year, month, day })
    }

    fn from_valid(t: (i32, u32, u32)) -> (d: CalendarDate)
        requires
            is_valid_ymd(t.0 as int, t.1 as int, t.2 as int),
        ensures
            d@ == (t.0 as int, t.1 as int, t.2 as int),
    {
        CalendarDate { year: t.0, month: t.1, day: t.2 }
    }

    /// The dated year.
    pub fn year(&self) -> (y: i32)
        ensures
            y as int == self@.0,
            self.is_valid(),
    {
        proof {
            use_type_invariant(self);
        }
        self.year
    }

    /// The month, 1 to 12.
    pub fn month(&self) -> (m: u32)
        ensures
            m as int == self@.1,
            1 <= m <= 12,
    {
        proof {
            use_type_invariant(self);
        }
        self.month
    }

    /// The day of the month, from 1.
    pub fn day(&self) -> (d: u32)
        ensures
            d as int == self@.2,
            1 <= d <= 31,
    {
        proof {
            use_type_invariant(self);
        }
        self.day
    }

    /// The day of the week of this date, as `chrono` computes it.
    pub open spec fn spec_weekday(self) -> Weekday {
        weekday_numbered(weekday_number_of_ymd(self@.0, self@.1, self@.2))
    }

    /// The day of the week of this date.
    pub fn weekday(&self) -> (w: Weekday)
        ensures
            w == self.spec_weekday(),
    {
        proof {
            use_type_invariant(self);
        }
        let n = weekday_number_of(self.year, self.month, self.day);
        match Weekday::from_number(n) {
            Some(w) => w,
            None => Weekday::Sun,
        }
    }

    /// The date as `%Y-%m-%d` text (`chrono`'s formatting).
    pub open spec fn spec_iso_text(self) -> Seq<char> {
        iso_date_text(self@.0, self@.1, self@.2)
    }

    /// Renders the date as `%Y-%m-%d` text.
    pub fn to_iso_text(&self) -> (s: String)
        ensures
            s@ == self.spec_iso_text(),
            chrono_parse_iso(s@) == Some(
                (self@.0 as i32, self@.1 as u32, self@.2 as u32),
            ),
    {
        proof {
            use_type_invariant(self);
        }
        format_iso(self.year, self.month, self.day)
    }

    /// Reads `%Y-%m-%d` text (`chrono`'s parsing).
    pub fn parse_iso(text: &str) -> (r: Option<CalendarDate>)
        ensures
            match chrono_parse_iso(text@) {
                Some(t) => r matches Some(d) && d@ == (t.0 as int, t.1 as int, t.2 as int),
                None => r is None,
            },
    {
        match parse_iso(text) {
            Some(t) => Some(CalendarDate::from_valid(t)),
            None => None,
        }
    }

    /// Today's date in UTC.
    pub fn utc_today() -> (d: CalendarDate) {
        CalendarDate::from_valid(utc_today_ymd())
    }

    /// Today's date in the machine's local time zone.
    pub fn local_today() -> (d: CalendarDate) {
        CalendarDate::from_valid(local_today_ymd())
    }
}

} // verus!
