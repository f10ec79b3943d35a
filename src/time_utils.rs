//! The integer steps that turn intermediate values of the Julian Day
//! conversion into calendar fields.
use vstd::prelude::*;

use crate::calendar::is_valid_time;
use crate::error::AnnualSolarEventError;

verus! {

/// The month encoded by the intermediate value `e`, which may lie outside 1..=12.
pub open spec fn signed_month_of(e: int) -> int {
    if e < 14 {
        e - 1
    } else {
        e - 13
    }
}

/// The year encoded by `c` for a month in 1..=12 (January and February belong
/// to the following year).
pub open spec fn year_of(c: int, month: int) -> int {
    if month > 2 {
        c - 4716
    } else {
        c - 4715
    }
}

/// Calculates the month and year from the intermediate values `e` and `c` of the
/// Julian Day conversion; fails when the month is not in 1..=12.
pub fn calculate_month_and_year(e: i32, c: i32) -> (r: Result<(u32, i32), AnnualSolarEventError>)
    requires
        e > i32::MIN,
        c >= i32::MIN + 4716,
    ensures
        1 <= signed_month_of(e as int) <= 12 ==> r == Ok::<(u32, i32), AnnualSolarEventError>(
            (
                signed_month_of(e as int) as u32,
                year_of(c as int, signed_month_of(e as int)) as i32,
            ),
        ),
        !(1 <= signed_month_of(e as int) <= 12) ==> r == Err::<(u32, i32), AnnualSolarEventError>(
            AnnualSolarEventError::MonthOutOfRange(signed_month_of(e as int) as i32),
        ),
{
    let signed_month: i32 = if e < 14 {
        e - 1
    } else {
        e - 13
    };
    if signed_month < 1 || signed_month > 12 {
        return Err(AnnualSolarEventError::MonthOutOfRange(signed_month));
    }
    let month: u32 = signed_month as u32;
    let year: i32 = if month > 2 {
        c - 4716
    } else {
        c - 4715
    };
    Ok((month, year))
}

/// The day of the month encoded by `b`, `d` and `e`: `b - d - floor(30.6001 * e)`.
pub open spec fn day_of_month_of(b: int, d: int, e: int) -> int {
    b - d - (306001 * e) / 10000
}

/// Calculates the day of the month from the intermediate values `b`, `d` and `e`
/// of the Julian Day conversion, and passes on the fraction of the day, both
/// in hundred-thousandths of a day.
pub fn calculate_day(fraction: u32, b: i64, d: i64, e: i64) -> (r: (u32, u32))
    requires
        -0x100_0000_0000 <= e <= 0x100_0000_0000,
        -0x4000_0000_0000_0000 <= b <= 0x4000_0000_0000_0000,
        -0x4000_0000_0000_0000 <= d <= 0x4000_0000_0000_0000,
        0 <= day_of_month_of(b as int, d as int, e as int) <= u32::MAX,
    ensures
        r == (day_of_month_of(b as int, d as int, e as int) as u32, fraction),
{
    let whole_days: i64 = crate::julian_day::floor_div(e * 306001, 10000);
    let day: i64 = b - d - whole_days;
    (day as u32, fraction)
}

/// The hour, minute and second at `fraction` hundred-thousandths of a day past
/// midnight, before carries: the hour is `floor(24 * fraction)`, the minute
/// `floor(60 * r)` for the (five-decimal) remainder `r` of the hour, and the
/// second `floor(60 * (0.01 + r'))` for the remainder `r'` of the minute,
/// which may reach 60.
pub open spec fn raw_time_of_day(fraction: int) -> (int, int, int) {
    let hour = (24 * fraction) / 100000;
    let hour_remainder = 24 * fraction - 100000 * hour;
    let minute = (60 * hour_remainder) / 100000;
    let minute_remainder = 60 * hour_remainder - 100000 * minute;
    let second = (60 * (1000 + minute_remainder)) / 100000;
    (hour, minute, second)
}

/// Carries a second of 60 into the minute, a minute of 60 into the hour and an
/// hour of 24 into the next day (the flag).
pub open spec fn carried_time(hour: int, minute: int, second: int) -> (int, int, int, bool) {
    let (minute, second) = if second == 60 {
        (minute + 1, 0)
    } else {
        (minute, second)
    };
    let (hour, minute) = if minute == 60 {
        (hour + 1, 0)
    } else {
        (hour, minute)
    };
    if hour == 24 {
        (0, minute, second, true)
    } else {
        (hour, minute, second, false)
    }
}

/// The time of day at `fraction` hundred-thousandths of a day past midnight,
/// with the flag that says whether it carried into the next day.
pub open spec fn time_of_day(fraction: int) -> (int, int, int, bool) {
    carried_time(raw_time_of_day(fraction).0, raw_time_of_day(fraction).1, raw_time_of_day(fraction).2)
}

/// Calculates the hour, minute and second at `fraction` hundred-thousandths of
/// a day past midnight, and whether the time carried into the next day.
pub fn calculate_hour_minute_second(fraction: u32) -> (r: (u32, u32, u32, bool))
    requires
        fraction < 100000,
    ensures
        (r.0 as int, r.1 as int, r.2 as int, r.3) == time_of_day(fraction as int),
        is_valid_time(r.0 as int, r.1 as int, r.2 as int),
{
    let hour_with_remainder: u32 = 24 * fraction;
    let mut hour: u32 = hour_with_remainder / 100000;
    let fraction_of_hour: u32 = hour_with_remainder - 100000 * hour;
    let minute_with_remainder: u32 = 60 * fraction_of_hour;
    let mut minute: u32 = minute_with_remainder / 100000;
    let fraction_of_minute: u32 = 1000 + minute_with_remainder - 100000 * minute;
    let mut second: u32 = (60 * fraction_of_minute) / 100000;
    let mut move_day_forward: bool = false;

    if second == 60 {
        minute += 1;
        second = 0;
    }
    if minute == 60 {
        hour += 1;
        minute = 0;
    }
    if hour == 24 {
        hour = 0;
        move_day_forward = true;
    }
    (hour, minute, second, move_day_forward)
}

/// A time of day read at five-decimal resolution never carries into the next
/// day: the latest such time, 0.99999 of a day, is 23:59:59.136.
pub proof fn lemma_time_of_day_stays_within_day(fraction: int)
    requires
        0 <= fraction < 100000,
    ensures
        !time_of_day(fraction).3,
        is_valid_time(time_of_day(fraction).0, time_of_day(fraction).1, time_of_day(fraction).2),
{
}

/// Carry propagation: a raw second of 60 becomes 0 and advances the minute; a
/// minute that reaches 60 becomes 0 and advances the hour, and an hour that
/// reaches 24 becomes 0 and moves the date to the next day.
pub proof fn lemma_carry_propagation(fraction: int)
    requires
        0 <= fraction < 100000,
        raw_time_of_day(fraction).2 == 60,
    ensures
        ({
            let (hour, minute, _second) = raw_time_of_day(fraction);
            let (h, m, s, next_day) = time_of_day(fraction);
            &&& s == 0
            &&& minute + 1 < 60 ==> h == hour && m == minute + 1 && !next_day
            &&& minute + 1 == 60 ==> m == 0 && h == (hour + 1) % 24 && next_day == (hour + 1 == 24)
        }),
{
}

} // verus!
