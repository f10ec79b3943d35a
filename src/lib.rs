//! Dates and times of the four annual solar events (the March and September
//! equinoxes, the June and December solstices), estimated with a low-precision
//! quartic fit and converted from Julian Day Numbers to UTC calendar values.
//!
//! All arithmetic is exact: a Julian Day Number is held as a whole number of
//! hundred-thousandths of a day, which is precisely the five-decimal
//! resolution at which the estimate and the conversion operate.

pub mod calendar;
pub mod converter;
mod error;
pub mod estimator;
pub mod events;
pub mod julian_day;
pub mod time_utils;

pub use calendar::CalendarDateTime;
pub use converter::julian_day_to_datetime;
pub use error::{AnnualSolarEventError, DecimalTextError};
pub use estimator::{estimate_event_julian_day, SolarEventKind};
pub use events::{
    year_in_range, AnnualSolarEvents, DecemberSolstice, JuneSolstice, MarchEquinox,
    SeptemberEquinox,
};
pub use julian_day::JulianDayNumber;
pub use time_utils::{calculate_day, calculate_hour_minute_second, calculate_month_and_year};
