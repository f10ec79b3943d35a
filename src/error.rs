use vstd::prelude::*;

verus! {

/// Why a piece of decimal text could not be read as a Julian Day Number.
#[derive(Clone, Copy, Debug, PartialEq, Eq, Structural)]
pub enum DecimalTextError {
    /// The text is not an optional sign, digits, and optionally a decimal point
    /// followed by one to five digits.
    Malformed,
    /// The value lies outside the range that a Julian Day Number can hold.
    OutOfRange,
}

/// Represents errors that can occur when calculating the date and time of an annual solar event.
#[derive(Clone, Copy, Debug, PartialEq, Eq, Structural)]
pub enum AnnualSolarEventError {
    /// A valid date could not be formed from the given year, month and day.
    InvalidDateError(i32, u32, u32),
    /// The derived month number is not in 1..=12.
    MonthOutOfRange(i32),
    /// A valid time of day could not be formed from the given hour, minute and second.
    NaiveTimeError(u32, u32, u32),
    /// Decimal text could not be read back as a five-decimal number.
    ParseFloatError(DecimalTextError),
    /// The year lies outside 1900..=2100.
    YearOutOfRange(i32),
}

} // verus!
