//! Conversion of a Julian Day Number into a UTC calendar date and time.
use vstd::prelude::*;

use crate::calendar::{
    checked_calendar_date_and_next, checked_time_of_day_exec, is_supported_date, is_valid_time,
    next_date, CalendarDateTime, DateTimeParts,
};
use crate::error::AnnualSolarEventError;
use crate::julian_day::{floor_div, in_julian_day_range, JulianDayNumber};
use crate::time_utils::{
    calculate_day, calculate_hour_minute_second, calculate_month_and_year, day_of_month_of,
    lemma_time_of_day_stays_within_day, signed_month_of, time_of_day, year_of,
};

verus! {

/// The first day number of the Gregorian calendar (1582-10-15); earlier days
/// are counted in the Julian calendar.
pub const GREGORIAN_START_DAY: i64 = 2299161;

/// The day number of a Julian Day Number: days from the epoch, counted from
/// midnight (the Julian Day's fraction counts from noon).
pub open spec fn day_number_of(units: int) -> int {
    (units + 50000) / 100000
}

/// The fraction of the day past midnight, in hundred-thousandths of a day.
pub open spec fn day_fraction_of(units: int) -> int {
    (units + 50000) % 100000
}

/// The day number counted in the Julian calendar: unchanged before the
/// Gregorian reform; from it on, the days that the Gregorian calendar skipped
/// are added back, `alpha` counting the Julian centuries.
pub open spec fn julian_calendar_count(z: int) -> int {
    if z < GREGORIAN_START_DAY {
        z
    } else {
        let alpha = (4 * z - 7468865) / 146097;
        z + 1 + alpha - alpha / 4
    }
}

/// The intermediate values `(b, c, d, e)` of the conversion of a day number:
/// `b = a + 1524`, `c = floor((b - 122.1) / 365.25)`, `d = floor(365.25 * c)`
/// and `e = floor((b - d) / 30.6)`.
pub open spec fn conversion_terms(z: int) -> (int, int, int, int) {
    let b = julian_calendar_count(z) + 1524;
    let c = (20 * b - 2442) / 7305;
    let d = (1461 * c) / 4;
    let e = (5 * (b - d)) / 153;
    (b, c, d, e)
}

/// The calendar date and time of a Julian Day Number of `units`
/// hundred-thousandths of a day, or the error that the conversion reports.
pub open spec fn datetime_of_julian_day(units: int) -> Result<DateTimeParts, AnnualSolarEventError> {
    let (b, c, d, e) = conversion_terms(day_number_of(units));
    let month = signed_month_of(e);
    if !(1 <= month <= 12) {
        Err(AnnualSolarEventError::MonthOutOfRange(month as i32))
    } else {
        let year = year_of(c, month);
        let day = day_of_month_of(b, d, e);
        let (hour, minute, second, carry) = time_of_day(day_fraction_of(units));
        let next = next_date(year, month, day);
        if !is_supported_date(year, month, day) || (carry && !is_supported_date(
            next.0,
            next.1,
            next.2,
        )) {
            Err(AnnualSolarEventError::InvalidDateError(year as i32, month as u32, day as u32))
        } else if !is_valid_time(hour, minute, second) {
            Err(AnnualSolarEventError::NaiveTimeError(hour as u32, minute as u32, second as u32))
        } else {
            let date = if carry {
                next
            } else {
                (year, month, day)
            };
            Ok(
                DateTimeParts {
                    year: date.0,
                    month: date.1,
                    day: date.2,
                    hour,
                    minute,
                    second,
                },
            )
        }
    }
}

/// The bounds that the conversion's intermediate values keep for every day
/// number that fits in an `i32`.
pub proof fn lemma_conversion_terms_bounds(z: int)
    requires
        i32::MIN <= z <= i32::MAX,
    ensures
        ({
            let (b, c, d, e) = conversion_terms(z);
            &&& 123 <= b - d <= 488
            &&& 4 <= e <= 15
            &&& -6000000 <= c <= 6000000
            &&& -0x1_0000_0000 <= b <= 0x1_0000_0000
            &&& -0x1_0000_0000 <= d <= 0x1_0000_0000
            &&& 0 <= day_of_month_of(b, d, e) <= 31
        }),
{
    let (b, c, d, e) = conversion_terms(z);
    assert(0 <= day_of_month_of(b, d, e) <= 31) by {
        assert(4 <= e <= 15);
    }
}

/// The conversion never finds a month outside 1..=12, nor an invalid time of day.
pub proof fn lemma_conversion_month_and_time(units: int)
    requires
        in_julian_day_range(units),
    ensures
        !(datetime_of_julian_day(units) is Err && datetime_of_julian_day(units)->Err_0 is MonthOutOfRange),
        !(datetime_of_julian_day(units) is Err && datetime_of_julian_day(units)->Err_0 is NaiveTimeError),
        !time_of_day(day_fraction_of(units)).3,
{
    lemma_conversion_terms_bounds(day_number_of(units));
    lemma_time_of_day_stays_within_day(day_fraction_of(units));
}

/// The Gregorian reform: day number 2299160, the last one counted in the
/// Julian calendar, is 1582-10-04, and the next one is 1582-10-15, the first
/// of the Gregorian calendar, at every time of those days.
pub proof fn lemma_calendar_switch(units: int)
    requires
        in_julian_day_range(units),
    ensures
        day_number_of(units) == GREGORIAN_START_DAY - 1 ==> {
            &&& datetime_of_julian_day(units) is Ok
            &&& datetime_of_julian_day(units)->Ok_0.year == 1582
            &&& datetime_of_julian_day(units)->Ok_0.month == 10
            &&& datetime_of_julian_day(units)->Ok_0.day == 4
        },
        day_number_of(units) == GREGORIAN_START_DAY ==> {
            &&& datetime_of_julian_day(units) is Ok
            &&& datetime_of_julian_day(units)->Ok_0.year == 1582
            &&& datetime_of_julian_day(units)->Ok_0.month == 10
            &&& datetime_of_julian_day(units)->Ok_0.day == 15
        },
{
    lemma_time_of_day_stays_within_day(day_fraction_of(units));
}

/// Converts a Julian Day Number into the UTC calendar date and time it denotes.
///
/// The day number `z` and the fraction of the day past midnight are read from
/// the value; before the Gregorian reform (`z < 2299161`) the date is one of the
/// Julian calendar. A time that carries into the next day advances the date.
/// Fails when the derived date does not exist (or chrono cannot hold it).
pub fn julian_day_to_datetime(jd: JulianDayNumber) -> (r: Result<CalendarDateTime, AnnualSolarEventError>)
    ensures
        match r {
            Ok(dt) => datetime_of_julian_day(jd@) == Ok::<DateTimeParts, AnnualSolarEventError>(dt@),
            Err(err) => datetime_of_julian_day(jd@) == Err::<DateTimeParts, AnnualSolarEventError>(err),
        },
{
    let units: i64 = jd.hundred_thousandths();
    let j: i64 = units + 50000;
    let z: i64 = floor_div(j, 100000);
    let f: i64 = j - z * 100000;
    let a: i64 = if z < GREGORIAN_START_DAY {
        z
    } else {
        let alpha: i64 = floor_div(4 * z - 7468865, 146097);
        z + 1 + alpha - floor_div(alpha, 4)
    };
    let b: i64 = a + 1524;
    let c: i64 = floor_div(20 * b - 2442, 7305);
    let d: i64 = floor_div(1461 * c, 4);
    let e: i64 = floor_div(5 * (b - d), 153);
    proof {
        lemma_conversion_terms_bounds(z as int);
        lemma_conversion_month_and_time(units as int);
        assert(conversion_terms(z as int) == (b as int, c as int, d as int, e as int));
        assert(f as int == day_fraction_of(units as int));
    }
    let (month, year) = match calculate_month_and_year(e as i32, c as i32) {
        Ok(month_and_year) => month_and_year,
        Err(err) => return Err(err),
    };
    let (day, fraction_of_day) = calculate_day(f as u32, b, d, e);
    let (hour, minute, second, move_day_forward) = calculate_hour_minute_second(fraction_of_day);

    let (year, month, day) = match checked_calendar_date_and_next(year, month, day, move_day_forward) {
        Some(date) => date,
        None => return Err(AnnualSolarEventError::InvalidDateError(year, month, day)),
    };
    if !checked_time_of_day_exec(hour, minute, second) {
        return Err(AnnualSolarEventError::NaiveTimeError(hour, minute, second));
    }
    match CalendarDateTime::new(year, month, day, hour, minute, second) {
        Some(dt) => Ok(dt),
        None => Err(AnnualSolarEventError::NaiveTimeError(hour, minute, second)),
    }
}

} // verus!
