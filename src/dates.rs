//! Calendar dates as plain year, month and day, checked against chrono's
//! proleptic Gregorian calendar.
use vstd::prelude::*;

verus! {

/// Earliest year chrono's `NaiveDate` accepts.
pub const MIN_YEAR: i32 = -262143;

/// Latest year chrono's `NaiveDate` accepts.
pub const MAX_YEAR: i32 = 262142;

/// Leap years of the proleptic Gregorian calendar.
pub open spec fn is_leap_year(year: int) -> bool {
    year % 4 == 0 && (year % 100 != 0 || year % 400 == 0)
}

/// Number of days in `month` (1 to 12) of `year`.
pub open spec fn days_in_month(year: int, month: int) -> int {
    if month == 2 {
        if is_leap_year(year) {
            29
        } else {
            28
        }
    } else if month == 4 || month == 6 || month == 9 || month == 11 {
        30
    } else {
        31
    }
}

/// Whether year, month and day name a date that chrono can represent.
pub open spec fn valid_ymd(year: int, month: int, day: int) -> bool {
    &&& MIN_YEAR <= year <= MAX_YEAR
    &&& 1 <= month <= 12
    &&& 1 <= day <= days_in_month(year, month)
}

/// Relies on chrono's `NaiveDate::from_ymd_opt`, which returns `None` exactly
/// when the day does not exist in that month and year, the month or day is
/// invalid, or the year lies outside `MIN_YEAR..=MAX_YEAR`.
#[verifier::external_body]
fn date_exists(year: i32, month: u32, day: u32) -> (r: bool)
    ensures
        r == valid_ymd(year as int, month as int, day as int),
{
    chrono::NaiveDate::from_ymd_opt(year, month, day).is_some()
}

/// A day of the calendar.
pub struct Date {
    year: i32,
    month: u32,
    day: u32,
}

impl Date {
    pub closed spec fn spec_year(&self) -> int {
        self.year as int
    }

    pub closed spec fn spec_month(&self) -> int {
        self.month as int
    }

    pub closed spec fn spec_day(&self) -> int {
        self.day as int
    }

    /// Every `Date` is a day that exists.
    pub closed spec fn wf(&self) -> bool {
        valid_ymd(self.year as int, self.month as int, self.day as int)
    }

    /// The date with these parts, if it exists.
    pub fn from_ymd_opt(year: i32, month: u32, day: u32) -> (r: Option<Date>)
        ensures
            r is Some <==> valid_ymd(year as int, month as int, day as int),
            r matches Some(d) ==> d.wf() && d.spec_year() == year && d.spec_month() == month
                && d.spec_day() == day,
    {
        if date_exists(year, month, day) {
            Some(Date { year, month, day })
        } else {
            None
        }
    }

    /// The date with these parts, which must exist.
    pub fn from_ymd(year: i32, month: u32, day: u32) -> (r: Date)
        requires
            valid_ymd(year as int, month as int, day as int),
        ensures
            r.wf(),
            r.spec_year() == year,
            r.spec_month() == month,
            r.spec_day() == day,
    {
        Date::from_ymd_opt(year, month, day).unwrap()
    }

    pub fn year(&self) -> (r: i32)
        ensures
            r == self.spec_year(),
    {
        self.year
    }

    pub fn month(&self) -> (r: u32)
        ensures
            r == self.spec_month(),
    {
        self.month
    }

    pub fn day(&self) -> (r: u32)
        ensures
            r == self.spec_day(),
    {
        self.day
    }
}

} // verus!
