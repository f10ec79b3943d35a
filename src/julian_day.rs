//! Julian Day Numbers at five-decimal resolution.
use vstd::prelude::*;
use vstd::string::*;

use crate::error::{AnnualSolarEventError, DecimalTextError};

verus! {

/// The smallest value held by a [`JulianDayNumber`], in hundred-thousandths of
/// a day: its day number (counted from midnight) is `i32::MIN`.
pub const MIN_HUNDRED_THOUSANDTHS: i64 = -214748364850000;

/// The largest value held by a [`JulianDayNumber`], in hundred-thousandths of
/// a day: its day number (counted from midnight) is `i32::MAX`.
pub const MAX_HUNDRED_THOUSANDTHS: i64 = 214748364749999;

/// The largest whole part of decimal text that is read exactly; any larger one
/// is out of range.
pub const WHOLE_CAP: i64 = 2147483648;

/// Whether `units` hundred-thousandths of a day can be held by a [`JulianDayNumber`].
pub open spec fn in_julian_day_range(units: int) -> bool {
    MIN_HUNDRED_THOUSANDTHS <= units <= MAX_HUNDRED_THOUSANDTHS
}

/// A Julian Day Number rounded to five decimals: days since the Julian Day
/// epoch, with the fraction counted from noon, held exactly as a whole number
/// of hundred-thousandths of a day.
///
/// Two values are equal exactly when their five-decimal roundings are.
#[derive(Clone, Copy, Debug, PartialEq, Eq, Structural)]
pub struct JulianDayNumber {
    hundred_thousandths: i64,
}

impl View for JulianDayNumber {
    type V = int;

    /// The value in hundred-thousandths of a day.
    closed spec fn view(&self) -> int {
        self.hundred_thousandths as int
    }
}

impl JulianDayNumber {
    #[verifier::type_invariant]
    spec fn in_range(self) -> bool {
        in_julian_day_range(self.hundred_thousandths as int)
    }

    /// The Julian Day Number of `units` hundred-thousandths of a day, if it lies
    /// in the supported range.
    pub fn from_hundred_thousandths(units: i64) -> (r: Option<JulianDayNumber>)
        ensures
            r is Some <==> in_julian_day_range(units as int),
            r is Some ==> r->0@ == units as int,
    {
        if MIN_HUNDRED_THOUSANDTHS <= units && units <= MAX_HUNDRED_THOUSANDTHS {
            Some(JulianDayNumber { hundred_thousandths: units })
        } else {
            None
        }
    }

    /// The Julian Day Number of `units` hundred-thousandths of a day.
    pub(crate) fn from_units_in_range(units: i64) -> (r: JulianDayNumber)
        requires
            in_julian_day_range(units as int),
        ensures
            r@ == units as int,
    {
        JulianDayNumber { hundred_thousandths: units }
    }

    /// Reads decimal text, such as a number formatted with five decimals
    /// (`2451545.00000`), as a Julian Day Number: an optional sign, digits,
    /// and optionally a decimal point followed by one to five digits.
    pub fn parse_five_decimals(text: &str) -> (r: Result<JulianDayNumber, AnnualSolarEventError>)
        ensures
            (forall|p: int| !decimal_layout(text@, p)) ==> r == Err::<
                JulianDayNumber,
                AnnualSolarEventError,
            >(AnnualSolarEventError::ParseFloatError(DecimalTextError::Malformed)),
            forall|p: int|
                #[trigger] decimal_layout(text@, p) ==> {
                    &&& in_julian_day_range(decimal_value(text@, p)) ==> r is Ok && r->Ok_0@
                        == decimal_value(text@, p)
                    &&& !in_julian_day_range(decimal_value(text@, p)) ==> r == Err::<
                        JulianDayNumber,
                        AnnualSolarEventError,
                    >(AnnualSolarEventError::ParseFloatError(DecimalTextError::OutOfRange))
                },
    {
        let ghost s = text@;
        let n: usize = text.unicode_len();
        let negative: bool = n > 0 && text.get_char(0) == '-';
        let start: usize = if n > 0 && (text.get_char(0) == '-' || text.get_char(0) == '+') {
            1
        } else {
            0
        };
        // Digits before the decimal point; their value is kept while it is at
        // most `WHOLE_CAP`, beyond which the text is out of range.
        let mut i: usize = start;
        let mut whole: i64 = 0;
        let mut too_large: bool = false;
        let mut stopped: bool = false;
        while i < n && !stopped
            invariant
                s == text@,
                n as int == s.len(),
                start as int == sign_length(s),
                start <= i <= n,
                digits_between(s, start as int, i as int),
                stopped ==> i < n && !is_digit(s[i as int]),
                !too_large ==> whole as int == digits_value(s, start as int, i as int),
                !too_large ==> 0 <= whole <= WHOLE_CAP,
                too_large ==> digits_value(s, start as int, i as int) > WHOLE_CAP,
            decreases n - i + (if stopped {
                0int
            } else {
                1int
            }),
        {
            let c: char = text.get_char(i);
            if c < '0' || c > '9' {
                stopped = true;
            } else {
                let digit: i64 = (c as u32 - '0' as u32) as i64;
                if !too_large {
                    let next: i64 = whole * 10 + digit;
                    if next > WHOLE_CAP {
                        too_large = true;
                    } else {
                        whole = next;
                    }
                }
                i = i + 1;
            }
        }
        let p: usize = i;
        if p == start {
            proof {
                assert forall|q: int| !decimal_layout(s, q) by {
                    if decimal_layout(s, q) {
                        assert(is_digit(s[p as int]));
                    }
                }
            }
            return Err(AnnualSolarEventError::ParseFloatError(DecimalTextError::Malformed));
        }
        let mut fraction: i64 = 0;
        let mut scaled: i64 = 0;
        if p < n {
            if text.get_char(p) != '.' || n - p < 2 || n - p > 6 {
                proof {
                    assert forall|q: int| !decimal_layout(s, q) by {
                        if decimal_layout(s, q) {
                            if q < p {
                                assert(is_digit(s[q]));
                            } else if q > p {
                                assert(is_digit(s[p as int]));
                            }
                        }
                    }
                }
                return Err(AnnualSolarEventError::ParseFloatError(DecimalTextError::Malformed));
            }
            let mut j: usize = p + 1;
            while j < n
                invariant
                    s == text@,
                    n as int == s.len(),
                    p < j <= n,
                    n <= p + 6,
                    s[p as int] == '.',
                    digits_between(s, p as int + 1, j as int),
                    fraction as int == digits_value(s, p as int + 1, j as int),
                    0 <= fraction < pow10((j - p - 1) as nat),
                decreases n - j,
            {
                let c: char = text.get_char(j);
                if c < '0' || c > '9' {
                    proof {
                        assert forall|q: int| !decimal_layout(s, q) by {
                            if decimal_layout(s, q) {
                                if q < p {
                                    assert(is_digit(s[q]));
                                } else if q > p {
                                    assert(is_digit(s[p as int]));
                                } else {
                                    assert(is_digit(s[j as int]));
                                }
                            }
                        }
                    }
                    return Err(AnnualSolarEventError::ParseFloatError(DecimalTextError::Malformed));
                }
                proof {
                    lemma_pow10_small();
                    lemma_pow10_monotone((j - p - 1) as nat, 4);
                }
                fraction = fraction * 10 + (c as u32 - '0' as u32) as i64;
                j = j + 1;
            }
            scaled = scale_fraction(fraction, n - p - 1);
        }
        proof {
            assert(decimal_layout(s, p as int));
            assert forall|q: int| #[trigger] decimal_layout(s, q) implies q == p by {
                lemma_decimal_layout_unique(s, p as int, q);
            }
            lemma_digits_value_bounds(s, start as int, p as int);
            assert(scaled as int == (if p == n {
                0
            } else {
                digits_value(s, p + 1, s.len() as int) * pow10((5 - (s.len() - p - 1)) as nat)
            }));
        }
        if too_large {
            return Err(AnnualSolarEventError::ParseFloatError(DecimalTextError::OutOfRange));
        }
        let magnitude: i64 = whole * 100000 + scaled;
        let value: i64 = if negative {
            -magnitude
        } else {
            magnitude
        };
        assert(value as int == decimal_value(s, p as int));
        match JulianDayNumber::from_hundred_thousandths(value) {
            Some(jd) => Ok(jd),
            None => Err(AnnualSolarEventError::ParseFloatError(DecimalTextError::OutOfRange)),
        }
    }

    /// The value in hundred-thousandths of a day.
    pub fn hundred_thousandths(&self) -> (r: i64)
        ensures
            r as int == self@,
            in_julian_day_range(r as int),
    {
        proof {
            use_type_invariant(self);
        }
        self.hundred_thousandths
    }
}

/// A decimal digit.
pub open spec fn is_digit(c: char) -> bool {
    '0' <= c <= '9'
}

/// Whether the characters of `s` at `lo..hi` are all digits.
pub open spec fn digits_between(s: Seq<char>, lo: int, hi: int) -> bool {
    forall|i: int| lo <= i < hi ==> is_digit(#[trigger] s[i])
}

/// The value of the digits of `s` at `lo..hi`, read in base ten.
pub open spec fn digits_value(s: Seq<char>, lo: int, hi: int) -> int
    decreases hi - lo,
{
    if hi <= lo {
        0
    } else {
        10 * digits_value(s, lo, hi - 1) + (s[hi - 1] as int - '0' as int)
    }
}

/// Ten to the power `n`.
pub open spec fn pow10(n: nat) -> int
    decreases n,
{
    if n == 0 {
        1
    } else {
        10 * pow10((n - 1) as nat)
    }
}

/// The length of the leading sign of `s`, if it has one.
pub open spec fn sign_length(s: Seq<char>) -> int {
    if s.len() > 0 && (s[0] == '-' || s[0] == '+') {
        1
    } else {
        0
    }
}

/// `s` is decimal text whose digits before the decimal point end at `p`: an
/// optional sign, at least one digit, then either nothing or a decimal point
/// followed by one to five digits.
pub open spec fn decimal_layout(s: Seq<char>, p: int) -> bool {
    &&& sign_length(s) < p <= s.len()
    &&& digits_between(s, sign_length(s), p)
    &&& (p == s.len() || (s[p] == '.' && p + 2 <= s.len() <= p + 6 && digits_between(
        s,
        p + 1,
        s.len() as int,
    )))
}

/// The value, in hundred-thousandths, of decimal text laid out as
/// `decimal_layout(s, p)` says.
pub open spec fn decimal_value(s: Seq<char>, p: int) -> int {
    let fraction = if p == s.len() {
        0
    } else {
        digits_value(s, p + 1, s.len() as int) * pow10((5 - (s.len() - p - 1)) as nat)
    };
    let magnitude = digits_value(s, sign_length(s), p) * 100000 + fraction;
    if s.len() > 0 && s[0] == '-' {
        -magnitude
    } else {
        magnitude
    }
}

/// Decimal text has one layout only.
pub proof fn lemma_decimal_layout_unique(s: Seq<char>, p: int, q: int)
    requires
        decimal_layout(s, p),
        decimal_layout(s, q),
    ensures
        p == q,
{
    if p < q {
        assert(is_digit(s[p]));
    } else if q < p {
        assert(is_digit(s[q]));
    }
}

proof fn lemma_digits_value_bounds(s: Seq<char>, lo: int, hi: int)
    requires
        lo <= hi,
        digits_between(s, lo, hi),
    ensures
        0 <= digits_value(s, lo, hi) < pow10((hi - lo) as nat),
    decreases hi - lo,
{
    if lo < hi {
        lemma_digits_value_bounds(s, lo, hi - 1);
        assert(is_digit(s[hi - 1]));
    }
}

proof fn lemma_digits_value_grows(s: Seq<char>, lo: int, hi: int, k: int)
    requires
        lo <= hi <= k,
        digits_between(s, lo, k),
    ensures
        digits_value(s, lo, hi) <= digits_value(s, lo, k),
    decreases k - hi,
{
    if hi < k {
        lemma_digits_value_grows(s, lo, hi, k - 1);
        lemma_digits_value_bounds(s, lo, k - 1);
        assert(is_digit(s[k - 1]));
    }
}

proof fn lemma_pow10_small()
    ensures
        pow10(0) == 1,
        pow10(1) == 10,
        pow10(2) == 100,
        pow10(3) == 1000,
        pow10(4) == 10000,
        pow10(5) == 100000,
{
    reveal_with_fuel(pow10, 6);
}

proof fn lemma_pow10_monotone(a: nat, b: nat)
    requires
        a <= b,
    ensures
        1 <= pow10(a) <= pow10(b),
    decreases b,
{
    if a < b {
        lemma_pow10_monotone(a, (b - 1) as nat);
    } else if a > 0 {
        lemma_pow10_monotone((a - 1) as nat, (a - 1) as nat);
    }
}

/// The value of `digits` fraction digits, `fraction`, in hundred-thousandths.
fn scale_fraction(fraction: i64, digits: usize) -> (r: i64)
    requires
        1 <= digits <= 5,
        0 <= fraction < pow10(digits as nat),
    ensures
        r as int == fraction * pow10((5 - digits) as nat),
        0 <= r < 100000,
{
    proof {
        lemma_pow10_small();
    }
    if digits == 1 {
        fraction * 10000
    } else if digits == 2 {
        fraction * 1000
    } else if digits == 3 {
        fraction * 100
    } else if digits == 4 {
        fraction * 10
    } else {
        fraction
    }
}

/// Rounded-down quotient of `n` by a positive `d`.
pub fn floor_div(n: i64, d: i64) -> (q: i64)
    requires
        d > 0,
    ensures
        q as int == n as int / d as int,
{
    assert(i64::MIN <= n as int / d as int <= i64::MAX) by (nonlinear_arith)
        requires
            d > 0,
            i64::MIN <= n <= i64::MAX,
    {
        if n >= 0 {
            assert(n as int / d as int <= n);
        } else {
            assert(n as int / d as int >= n);
        }
    }
    match n.checked_div_euclid(d) {
        Some(q) => q,
        None => 0,
    }
}

} // verus!
