//! Dates of the Gregorian calendar and times of the 24-hour clock, as plain
//! numbers.

use vstd::prelude::*;

verus! {

/// The first year that a date can lie in.
pub const MIN_YEAR: i32 = -262143;

/// The last year that a date can lie in.
pub const MAX_YEAR: i32 = 262142;

/// Whether `year` has a 29th of February. Year 0 is the year before year 1.
pub open spec fn is_leap_year(year: int) -> bool {
    year % 4 == 0 && (year % 100 != 0 || year % 400 == 0)
}

/// The number of days of month `month` in `year`.
pub open spec fn days_in_month(year: int, month: int) -> int {
    if month == 2 {
        if is_leap_year(year) {
            29
        } else {
            28
        }
    } else if month == 4 || month == 6 || month == 9 || month == 11 {
        30
    } else {
        31
    }
}

/// Whether year, month and day name a day of the Gregorian calendar, carried
/// back before its introduction, in a year that a date can lie in.
pub open spec fn is_calendar_date(year: int, month: int, day: int) -> bool {
    &&& MIN_YEAR <= year <= MAX_YEAR
    &&& 1 <= month <= 12
    &&& 1 <= day <= days_in_month(year, month)
}

/// The number of days of `year` that lie before its month `month`.
pub open spec fn days_before_month(year: int, month: int) -> int
    decreases month,
{
    if month <= 1 {
        0
    } else {
        days_before_month(year, month - 1) + days_in_month(year, month - 1)
    }
}

/// The number of days from the first day of year 1 up to, but not
/// including, the first day of `year`; below nought for the years before
/// year 1.
pub open spec fn days_before_year(year: int) -> int {
    365 * (year - 1) + (year - 1) / 4 - (year - 1) / 100 + (year - 1) / 400
}

/// The number of a day of the calendar in the count of days in which the
/// first of January of year 1 is day 1.
pub open spec fn day_number(year: int, month: int, day: int) -> int {
    days_before_year(year) + days_before_month(year, month) + day
}

/// The number of days from Monday to the weekday of a day of the calendar:
/// the weeks run on without a break, and day 1 was a Monday.
pub open spec fn weekday_index(year: int, month: int, day: int) -> int {
    (day_number(year, month, day) - 1) % 7
}

/// Whether hour and minute name a time of the 24-hour clock.
pub open spec fn is_clock_time(hour: int, minute: int) -> bool {
    0 <= hour < 24 && 0 <= minute < 60
}

/// Whether hour and minute name a time of the 24-hour clock.
pub fn clock_time_exists(hour: u32, minute: u32) -> (exists: bool)
    ensures
        exists == is_clock_time(hour as int, minute as int),
{
    hour < 24 && minute < 60
}

/// A date and a time of day as they are read off a calendar and a clock.
#[derive(Clone, Copy, Debug, PartialEq, Eq, Structural)]
pub struct CivilMoment {
    pub year: i32,
    pub month: u32,
    pub day: u32,
    pub hour: u32,
    pub minute: u32,
    pub second: u32,
}

impl CivilMoment {
    /// Whether the moment can be handed to an ephemeris that takes the year
    /// in sixteen bits and the other fields in eight: the year lies within
    /// 32767 years of year 0, and month, day, hour, minute and second are
    /// such as a calendar and a clock show.
    pub open spec fn fits_ephemeris(self) -> bool {
        &&& -32767 <= self.year <= 32767
        &&& 1 <= self.month <= 12
        &&& 1 <= self.day <= 31
        &&& self.hour < 24
        &&& self.minute < 60
        &&& self.second < 60
    }

    /// Whether the moment can be handed to an ephemeris that takes the year
    /// in sixteen bits and the other fields in eight.
    pub fn check_fits_ephemeris(&self) -> (fits: bool)
        ensures
            fits == self.fits_ephemeris(),
    {
        -32767 <= self.year && self.year <= 32767 && 1 <= self.month && self.month <= 12 && 1
            <= self.day && self.day <= 31 && self.hour < 24 && self.minute < 60 && self.second
            < 60
    }
}

} // verus!
