use vstd::prelude::*;

use crate::text::nat_text;

verus! {

/// The earliest year that a calendar date can have.
pub const MIN_YEAR: i32 = -262143;

/// The latest year that a calendar date can have.
pub const MAX_YEAR: i32 = 262142;

/// Leap years of the proleptic Gregorian calendar.
pub open spec fn is_leap_year(y: int) -> bool {
    (y % 4 == 0 && y % 100 != 0) || y % 400 == 0
}

pub open spec fn days_in_month(y: int, m: int) -> int {
    if m == 2 {
        if is_leap_year(y) {
            29
        } else {
            28
        }
    } else if m == 4 || m == 6 || m == 9 || m == 11 {
        30
    } else {
        31
    }
}

/// A day of the proleptic Gregorian calendar, within the supported years.
pub open spec fn valid_date(y: int, m: int, d: int) -> bool {
    &&& MIN_YEAR <= y <= MAX_YEAR
    &&& 1 <= m <= 12
    &&& 1 <= d <= days_in_month(y, m)
}

/// A time of day; a nanosecond count of a second or more marks a leap second,
/// which only the last second of a minute can hold.
pub open spec fn valid_time(h: int, min: int, s: int, nano: int) -> bool {
    &&& 0 <= h < 24
    &&& 0 <= min < 60
    &&& 0 <= s < 60
    &&& 0 <= nano < 2_000_000_000
    &&& (nano >= 1_000_000_000 ==> s == 59)
}

/// `n` in decimal, padded with zeros on the left to at least `width` digits.
pub open spec fn zero_padded(n: nat, width: nat) -> Seq<char> {
    let t = nat_text(n);
    if t.len() >= width {
        t
    } else {
        Seq::new((width - t.len()) as nat, |_i: int| '0') + t
    }
}

/// A year as `%Y` writes it: four digits at least, with a sign outside 0 to 9999.
pub open spec fn year_text(y: int) -> Seq<char> {
    if 0 <= y <= 9999 {
        zero_padded(y as nat, 4)
    } else if y < 0 {
        seq!['-'] + zero_padded((-y) as nat, 4)
    } else {
        seq!['+'] + zero_padded(y as nat, 4)
    }
}

/// A date written as `YYYY-MM-DD`.
pub open spec fn ymd_text(y: int, m: int, d: int) -> Seq<char> {
    year_text(y) + seq!['-'] + zero_padded(m as nat, 2) + seq!['-'] + zero_padded(d as nat, 2)
}

/// Relies on chrono::NaiveDate::from_ymd_opt, which returns `Some` exactly for
/// an existing day of a year between chrono's least and greatest year.
#[verifier::external_body]
fn chrono_accepts_date(year: i32, month: u32, day: u32) -> (r: bool)
    ensures
        r == valid_date(year as int, month as int, day as int),
{
    chrono::NaiveDate::from_ymd_opt(year, month, day).is_some()
}

/// Relies on chrono::NaiveTime::from_hms_nano_opt, which returns `Some`
/// exactly for a time of day, a leap second included.
#[verifier::external_body]
fn chrono_accepts_time(hour: u32, minute: u32, second: u32, nanosecond: u32) -> (r: bool)
    ensures
        r == valid_time(hour as int, minute as int, second as int, nanosecond as int),
{
    chrono::NaiveTime::from_hms_nano_opt(hour, minute, second, nanosecond).is_some()
}

/// Relies on chrono's `%Y-%m-%d` format of a NaiveDate: a zero-padded year of
/// four digits (signed outside 0 to 9999), month and day of two digits.
#[verifier::external_body]
fn chrono_ymd_text(year: i32, month: u32, day: u32) -> (r: String)
    requires
        valid_date(year as int, month as int, day as int),
    ensures
        r@ == ymd_text(year as int, month as int, day as int),
{
    chrono::NaiveDate::from_ymd_opt(year, month, day).unwrap().format("%Y-%m-%d").to_string()
}

/// A calendar date, as year, month (1 to 12) and day of the month.
#[derive(Clone, Copy, Debug, PartialEq, Eq)]
pub struct CalendarDate {
    pub year: i32,
    pub month: u32,
    pub day: u32,
}

impl CalendarDate {
    /// The date names an existing day.
    pub open spec fn wf(&self) -> bool {
        valid_date(self.year as int, self.month as int, self.day as int)
    }

    /// The date of the given year, month and day, if that day exists.
    pub fn new(year: i32, month: u32, day: u32) -> (r: Option<CalendarDate>)
        ensures
            r.is_some() == valid_date(year as int, month as int, day as int),
            r matches Some(d) ==> d.wf() && d.year == year && d.month == month && d.day == day,
    {
        if chrono_accepts_date(year, month, day) {
            Some(CalendarDate { year, month, day })
        } else {
            None
        }
    }

    /// The date as `YYYY-MM-DD`.
    pub fn text(&self) -> (r: String)
        requires
            self.wf(),
        ensures
            r@ == ymd_text(self.year as int, self.month as int, self.day as int),
    {
        chrono_ymd_text(self.year, self.month, self.day)
    }
}

/// A date and a time of day, to the nanosecond.
#[derive(Clone, Copy, Debug, PartialEq, Eq)]
pub struct Timestamp {
    pub date: CalendarDate,
    pub hour: u32,
    pub minute: u32,
    pub second: u32,
    pub nanosecond: u32,
}

impl Timestamp {
    pub open spec fn wf(&self) -> bool {
        &&& self.date.wf()
        &&& valid_time(self.hour as int, self.minute as int, self.second as int, self.nanosecond as int)
    }

    /// The given time of day on `date`, if it is a time of day.
    pub fn new(date: CalendarDate, hour: u32, minute: u32, second: u32, nanosecond: u32) -> (r: Option<Timestamp>)
        requires
            date.wf(),
        ensures
            r.is_some() == valid_time(hour as int, minute as int, second as int, nanosecond as int),
            r matches Some(t) ==> t.wf() && t == (Timestamp { date, hour, minute, second, nanosecond }),
    {
        if chrono_accepts_time(hour, minute, second, nanosecond) {
            Some(Timestamp { date, hour, minute, second, nanosecond })
        } else {
            None
        }
    }

    /// The first moment of `date`.
    pub fn midnight(date: CalendarDate) -> (r: Timestamp)
        requires
            date.wf(),
        ensures
            r.wf(),
            r == (Timestamp { date, hour: 0, minute: 0, second: 0, nanosecond: 0 }),
    {
        Timestamp { date, hour: 0, minute: 0, second: 0, nanosecond: 0 }
    }
}

} // verus!
