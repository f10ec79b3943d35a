//! Proleptic Gregorian dates and UTC times of day, as chrono accepts them.
use vstd::prelude::*;

use chrono::{Datelike, Timelike};

verus! {

/// The earliest year that chrono's `NaiveDate` can hold.
pub const MIN_SUPPORTED_YEAR: i32 = -262143;

/// The latest year that chrono's `NaiveDate` can hold.
pub const MAX_SUPPORTED_YEAR: i32 = 262142;

/// Leap years of the proleptic Gregorian calendar.
pub open spec fn is_leap_year(year: int) -> bool {
    year % 4 == 0 && (year % 100 != 0 || year % 400 == 0)
}

/// The number of days in `month` (1..=12) of `year`.
pub open spec fn days_in_month(year: int, month: int) -> int {
    if month == 2 {
        if is_leap_year(year) {
            29
        } else {
            28
        }
    } else if month == 4 || month == 6 || month == 9 || month == 11 {
        30
    } else {
        31
    }
}

/// A date that exists in the proleptic Gregorian calendar, in a year that chrono supports.
pub open spec fn is_supported_date(year: int, month: int, day: int) -> bool {
    &&& MIN_SUPPORTED_YEAR <= year <= MAX_SUPPORTED_YEAR
    &&& 1 <= month <= 12
    &&& 1 <= day <= days_in_month(year, month)
}

/// The calendar date one day after the given one.
pub open spec fn next_date(year: int, month: int, day: int) -> (int, int, int) {
    if day < days_in_month(year, month) {
        (year, month, day + 1)
    } else if month < 12 {
        (year, month + 1, 1)
    } else {
        (year + 1, 1, 1)
    }
}

/// A time of day with whole seconds and no leap second.
pub open spec fn is_valid_time(hour: int, minute: int, second: int) -> bool {
    0 <= hour < 24 && 0 <= minute < 60 && 0 <= second < 60
}

/// Relies on chrono's `NaiveDate::from_ymd_opt`, which returns `None` exactly
/// when the month or day does not exist in the proleptic Gregorian calendar
/// or the year lies outside chrono's range; the date is read back with the
/// `Datelike` getters.
#[verifier::external_body]
fn checked_calendar_date(year: i32, month: u32, day: u32) -> (r: Option<(i32, u32, u32)>)
    ensures
        r is Some <==> is_supported_date(year as int, month as int, day as int),
        r is Some ==> r->0 == (year, month, day),
{
    chrono::NaiveDate::from_ymd_opt(year, month, day).map(|d| (d.year(), d.month(), d.day()))
}

/// Relies on chrono's `NaiveDate::checked_add_signed` with `TimeDelta::days(1)`:
/// the next calendar date, or `None` past the last date chrono can hold. The
/// date is built with `NaiveDate::from_ymd_opt` and read back with the
/// `Datelike` getters.
#[verifier::external_body]
fn checked_next_date(year: i32, month: u32, day: u32) -> (r: Option<(i32, u32, u32)>)
    requires
        is_supported_date(year as int, month as int, day as int),
    ensures
        r is Some <==> is_supported_date(
            next_date(year as int, month as int, day as int).0,
            next_date(year as int, month as int, day as int).1,
            next_date(year as int, month as int, day as int).2,
        ),
        r is Some ==> r->0 == (
            next_date(year as int, month as int, day as int).0 as i32,
            next_date(year as int, month as int, day as int).1 as u32,
            next_date(year as int, month as int, day as int).2 as u32,
        ),
{
    chrono::NaiveDate::from_ymd_opt(year, month, day)
        .and_then(|d| d.checked_add_signed(chrono::TimeDelta::days(1)))
        .map(|d| (d.year(), d.month(), d.day()))
}

/// Relies on chrono's `NaiveTime::from_hms_opt`, which returns `None` exactly
/// when the hour is not below 24, the minute not below 60 or the second not
/// below 60; the time is read back with the `Timelike` getters.
#[verifier::external_body]
fn checked_time_of_day(hour: u32, minute: u32, second: u32) -> (r: Option<(u32, u32, u32)>)
    ensures
        r is Some <==> is_valid_time(hour as int, minute as int, second as int),
        r is Some ==> r->0 == (hour, minute, second),
{
    chrono::NaiveTime::from_hms_opt(hour, minute, second).map(|t| (t.hour(), t.minute(), t.second()))
}

/// The fields of a calendar date and time of day.
pub struct DateTimeParts {
    pub year: int,
    pub month: int,
    pub day: int,
    pub hour: int,
    pub minute: int,
    pub second: int,
}

impl DateTimeParts {
    /// A date that chrono can hold, and a time of day.
    pub open spec fn is_valid(self) -> bool {
        is_supported_date(self.year, self.month, self.day) && is_valid_time(
            self.hour,
            self.minute,
            self.second,
        )
    }
}

/// A date of the proleptic Gregorian calendar and a time of day, in UTC.
#[derive(Clone, Copy, Debug, PartialEq, Eq, Structural)]
pub struct CalendarDateTime {
    year: i32,
    month: u32,
    day: u32,
    hour: u32,
    minute: u32,
    second: u32,
}

impl View for CalendarDateTime {
    type V = DateTimeParts;

    closed spec fn view(&self) -> DateTimeParts {
        DateTimeParts {
            year: self.year as int,
            month: self.month as int,
            day: self.day as int,
            hour: self.hour as int,
            minute: self.minute as int,
            second: self.second as int,
        }
    }
}

impl CalendarDateTime {
    #[verifier::type_invariant]
    spec fn valid(self) -> bool {
        self@.is_valid()
    }

    /// The date and time with the given fields, if the date exists (and chrono
    /// can hold it) and the time of day is valid.
    pub fn new(year: i32, month: u32, day: u32, hour: u32, minute: u32, second: u32) -> (r: Option<
        CalendarDateTime,
    >)
        ensures
            r is Some <==> (DateTimeParts {
                year: year as int,
                month: month as int,
                day: day as int,
                hour: hour as int,
                minute: minute as int,
                second: second as int,
            }).is_valid(),
            r is Some ==> r->0@ == (DateTimeParts {
                year: year as int,
                month: month as int,
                day: day as int,
                hour: hour as int,
                minute: minute as int,
                second: second as int,
            }),
    {
        if is_supported_date_exec(year, month, day) && hour < 24 && minute < 60 && second < 60 {
            Some(CalendarDateTime { year, month, day, hour, minute, second })
        } else {
            None
        }
    }

    /// The year.
    pub fn year(&self) -> (r: i32)
        ensures
            r as int == self@.year,
            MIN_SUPPORTED_YEAR <= r <= MAX_SUPPORTED_YEAR,
    {
        proof {
            use_type_invariant(self);
        }
        self.year
    }

    /// The month, 1..=12.
    pub fn month(&self) -> (r: u32)
        ensures
            r as int == self@.month,
            1 <= r <= 12,
    {
        proof {
            use_type_invariant(self);
        }
        self.month
    }

    /// The day of the month, from 1.
    pub fn day(&self) -> (r: u32)
        ensures
            r as int == self@.day,
            1 <= r <= days_in_month(self@.year, self@.month),
    {
        proof {
            use_type_invariant(self);
        }
        self.day
    }

    /// The hour, 0..=23.
    pub fn hour(&self) -> (r: u32)
        ensures
            r as int == self@.hour,
            r < 24,
    {
        proof {
            use_type_invariant(self);
        }
        self.hour
    }

    /// The minute, 0..=59.
    pub fn minute(&self) -> (r: u32)
        ensures
            r as int == self@.minute,
            r < 60,
    {
        proof {
            use_type_invariant(self);
        }
        self.minute
    }

    /// The second, 0..=59.
    pub fn second(&self) -> (r: u32)
        ensures
            r as int == self@.second,
            r < 60,
    {
        proof {
            use_type_invariant(self);
        }
        self.second
    }
}

/// Whether a date exists in the proleptic Gregorian calendar and chrono can hold it.
pub fn is_supported_date_exec(year: i32, month: u32, day: u32) -> (r: bool)
    ensures
        r == is_supported_date(year as int, month as int, day as int),
{
    checked_calendar_date(year, month, day).is_some()
}

/// The date with the given fields, advanced by one day when `advance` is set,
/// if the date exists (and, when advanced, so does the next one).
pub fn checked_calendar_date_and_next(year: i32, month: u32, day: u32, advance: bool) -> (r: Option<
    (i32, u32, u32),
>)
    ensures
        r is Some <==> is_supported_date(year as int, month as int, day as int) && (advance
            ==> is_supported_date(
            next_date(year as int, month as int, day as int).0,
            next_date(year as int, month as int, day as int).1,
            next_date(year as int, month as int, day as int).2,
        )),
        r is Some && !advance ==> r->0 == (year, month, day),
        r is Some && advance ==> r->0 == (
            next_date(year as int, month as int, day as int).0 as i32,
            next_date(year as int, month as int, day as int).1 as u32,
            next_date(year as int, month as int, day as int).2 as u32,
        ),
{
    match checked_calendar_date(year, month, day) {
        Some(date) => {
            if advance {
                checked_next_date(date.0, date.1, date.2)
            } else {
                Some(date)
            }
        },
        None => None,
    }
}

/// Whether the hour, minute and second form a valid time of day.
pub fn checked_time_of_day_exec(hour: u32, minute: u32, second: u32) -> (r: bool)
    ensures
        r == is_valid_time(hour as int, minute as int, second as int),
{
    checked_time_of_day(hour, minute, second).is_some()
}

} // verus!
