//! Calendar rules for setting the real-time clock, on plain dates and times.

use vstd::prelude::*;

verus! {

/// A date and a time of day.
#[derive(Clone, Copy, Debug, PartialEq, Eq, Structural)]
pub struct DateTime {
    /// The year.
    pub year: i32,
    /// The month, 1 to 12.
    pub month: u32,
    /// The day of the month, from 1.
    pub day: u32,
    /// The hour, 0 to 23.
    pub hour: u32,
    /// The minute, 0 to 59.
    pub minute: u32,
    /// The second, 0 to 59.
    pub second: u32,
}

/// Whether a year is a leap year: divisible by 4, and by 400 if by 100.
pub open spec fn leap_year(year: int) -> bool {
    (year % 400 == 0 || year % 100 != 0) && year % 4 == 0
}

/// The number of days of a month, 1 to 12, in a common year.
pub open spec fn common_days(month: int) -> int {
    if month == 2 {
        28
    } else if month == 4 || month == 6 || month == 9 || month == 11 {
        30
    } else {
        31
    }
}

/// The number of days of a month in a year that is, or is not, a leap year.
pub open spec fn max_day(month: int, leap: bool) -> int {
    if month == 2 && leap {
        common_days(month) + 1
    } else {
        common_days(month)
    }
}

impl DateTime {
    /// The date exists and the time is a time of day.
    pub open spec fn wf(&self) -> bool {
        &&& 1 <= self.month <= 12
        &&& 1 <= self.day <= max_day(self.month as int, leap_year(self.year as int))
        &&& self.hour < 24
        &&& self.minute < 60
        &&& self.second < 60
    }
}

impl DateTime {
    /// Whether the date exists and the time is a time of day.
    pub fn is_valid(&self) -> (valid: bool)
        ensures
            valid == self.wf(),
    {
        1 <= self.month && self.month <= 12 && 1 <= self.day && self.day <= get_max_day_in_month(
            self.month,
            is_leap_year_opt(self.year),
        ) && self.hour < 24 && self.minute < 60 && self.second < 60
    }
}

/// Determine if the passed year is a leap year.
pub fn is_leap_year_opt(year: i32) -> (leap: bool)
    ensures
        leap == leap_year(year as int),
{
    let size: u32 = if year < 0 {
        (-(year as i64)) as u32
    } else {
        year as u32
    };
    assert(leap_year(year as int) == leap_year(size as int)) by {
        if year < 0 {
            lemma_leap_of_negative(year as int);
        }
    }
    (size % 400 == 0 || size % 100 != 0) && size % 4 == 0
}

/// A year before the year 0 is a leap year exactly if the year as far after
/// it is.
proof fn lemma_leap_of_negative(year: int)
    ensures
        leap_year(year) == leap_year(-year),
{
    assert((year % 4 == 0) == ((-year) % 4 == 0)) by (nonlinear_arith);
    assert((year % 100 == 0) == ((-year) % 100 == 0)) by (nonlinear_arith);
    assert((year % 400 == 0) == ((-year) % 400 == 0)) by (nonlinear_arith);
}

/// Get the maximum possible day in the passed month of a year that is, or is
/// not, a leap year: February has one day more in a leap year.
pub fn get_max_day_in_month(month: u32, leap: bool) -> (day: u32)
    requires
        1 <= month <= 12,
    ensures
        day == max_day(month as int, leap),
{
    let mut day: u32 = if month == 2 {
        28
    } else if month == 4 || month == 6 || month == 9 || month == 11 {
        30
    } else {
        31
    };
    if month == 2 && leap {
        day += 1;
    }
    day
}

/// The date and time with the hour replaced and the seconds at 0.
pub fn set_hour(current: DateTime, hour: u32) -> (new: DateTime)
    requires
        current.wf(),
        hour < 24,
    ensures
        new == (DateTime { hour, second: 0, ..current }),
        new.wf(),
{
    DateTime { hour, second: 0, ..current }
}

/// The date and time with the minute replaced and the seconds at 0.
pub fn set_minute(current: DateTime, minute: u32) -> (new: DateTime)
    requires
        current.wf(),
        minute < 60,
    ensures
        new == (DateTime { minute, second: 0, ..current }),
        new.wf(),
{
    DateTime { minute, second: 0, ..current }
}

/// The date with the day replaced. A day behind the end of the month becomes
/// the month's last day: the 29th of February becomes the 28th in a common
/// year.
pub fn set_day(current: DateTime, day: u32) -> (new: DateTime)
    requires
        current.wf(),
        1 <= day,
    ensures
        new == (DateTime {
            day: if day > max_day(current.month as int, leap_year(current.year as int)) {
                max_day(current.month as int, leap_year(current.year as int)) as u32
            } else {
                day
            },
            ..current
        }),
        new.wf(),
{
    let max = get_max_day_in_month(current.month, is_leap_year_opt(current.year));
    let day = if day > max {
        max
    } else {
        day
    };
    DateTime { day, ..current }
}

/// The date with the month replaced. A day that the new month does not have
/// becomes the new month's last day.
pub fn set_month(current: DateTime, month: u32) -> (new: DateTime)
    requires
        current.wf(),
        1 <= month <= 12,
    ensures
        new == (DateTime {
            month,
            day: if current.day > max_day(month as int, leap_year(current.year as int)) {
                max_day(month as int, leap_year(current.year as int)) as u32
            } else {
                current.day
            },
            ..current
        }),
        new.wf(),
{
    let max = get_max_day_in_month(month, is_leap_year_opt(current.year));
    let day = if current.day > max {
        max
    } else {
        current.day
    };
    DateTime { month, day, ..current }
}

/// The date with the year replaced. The 29th of February becomes the 28th if
/// the new year is a common year.
pub fn set_year(current: DateTime, year: i32) -> (new: DateTime)
    requires
        current.wf(),
    ensures
        new == (DateTime {
            year,
            day: if !leap_year(year as int) && current.month == 2 && current.day == 29 {
                28
            } else {
                current.day
            },
            ..current
        }),
        new.wf(),
{
    let day = if !is_leap_year_opt(year) && current.month == 2 && current.day == 29 {
        28
    } else {
        current.day
    };
    DateTime { year, day, ..current }
}

} // verus!
