//! Estimation of the Julian Day Number of an annual solar event.
use vstd::prelude::*;

use crate::julian_day::{in_julian_day_range, JulianDayNumber};

verus! {

/// The four annual solar events.
#[derive(Clone, Copy, Debug, PartialEq, Eq, Structural)]
pub enum SolarEventKind {
    MarchEquinox,
    JuneSolstice,
    SeptemberEquinox,
    DecemberSolstice,
}

/// The coefficients `(base, linear, quadratic, cubic, quartic)` of the fitted
/// polynomial of each event, in hundred-thousandths of a day.
pub open spec fn event_coefficients(kind: SolarEventKind) -> (int, int, int, int, int) {
    match kind {
        SolarEventKind::MarchEquinox => (245162380984, 36524237404, 5169, -411, -57),
        SolarEventKind::JuneSolstice => (245171656767, 36524162603, 325, 888, 30),
        SolarEventKind::SeptemberEquinox => (245181021715, 36524201767, 337, -78, -11575),
        SolarEventKind::DecemberSolstice => (245190005952, 36524274049, 32, -6223, -823),
    }
}

/// The polynomial `base + linear*m + quadratic*m^2 + cubic*m^3 + quartic*m^4`
/// at `m = (year - 2000) / 1000`, in units of 10^-17 day (so that it is an integer).
pub open spec fn scaled_event_polynomial(kind: SolarEventKind, year: int) -> int {
    let (base, linear, quadratic, cubic, quartic) = event_coefficients(kind);
    let t = year - 2000;
    base * 1_000_000_000_000 + linear * t * 1_000_000_000 + quadratic * (t * t) * 1_000_000
        + cubic * (t * t * t) * 1000 + quartic * (t * t * t * t)
}

/// `n / d` rounded to the nearest integer, halves away from zero.
pub open spec fn round_half_away_from_zero(n: int, d: int) -> int {
    if n >= 0 {
        (n + d / 2) / d
    } else {
        -((-n + d / 2) / d)
    }
}

/// The estimated Julian Day Number of the event in `year`, rounded to five
/// decimals, in hundred-thousandths of a day.
pub open spec fn estimated_units(kind: SolarEventKind, year: int) -> int {
    round_half_away_from_zero(scaled_event_polynomial(kind, year), 1_000_000_000_000)
}

impl SolarEventKind {
    /// The coefficients `(base, linear, quadratic, cubic, quartic)` of the
    /// event's polynomial, in hundred-thousandths of a day.
    pub fn julian_day_constants(self) -> (r: (i64, i64, i64, i64, i64))
        ensures
            (r.0 as int, r.1 as int, r.2 as int, r.3 as int, r.4 as int) == event_coefficients(self),
    {
        match self {
            SolarEventKind::MarchEquinox => (245162380984, 36524237404, 5169, -411, -57),
            SolarEventKind::JuneSolstice => (245171656767, 36524162603, 325, 888, 30),
            SolarEventKind::SeptemberEquinox => (245181021715, 36524201767, 337, -78, -11575),
            SolarEventKind::DecemberSolstice => (245190005952, 36524274049, 32, -6223, -823),
        }
    }
}

/// Bounds of the powers of `t` for `|t| <= 100`.
proof fn lemma_small_powers(t: int)
    requires
        -100 <= t <= 100,
    ensures
        0 <= t * t <= 10000,
        -1000000 <= t * t * t <= 1000000,
        0 <= t * t * t * t <= 100000000,
{
    assert(0 <= t * t <= 10000) by (nonlinear_arith)
        requires
            -100 <= t <= 100,
    ;
    assert(-1000000 <= t * t * t <= 1000000) by (nonlinear_arith)
        requires
            -100 <= t <= 100,
            0 <= t * t <= 10000,
    ;
    assert(0 <= t * t * t * t <= 100000000) by (nonlinear_arith)
        requires
            -100 <= t <= 100,
            -1000000 <= t * t * t <= 1000000,
            0 <= t * t <= 10000,
    ;
}

/// A bound of `|a * x|` from bounds of `|a|` and `|x|`.
proof fn lemma_product_bound(a: int, x: int, a_bound: int, x_bound: int)
    requires
        -a_bound <= a <= a_bound,
        -x_bound <= x <= x_bound,
    ensures
        -(a_bound * x_bound) <= a * x <= a_bound * x_bound,
{
    assert(-(a_bound * x_bound) <= a * x <= a_bound * x_bound) by (nonlinear_arith)
        requires
            -a_bound <= a <= a_bound,
            -x_bound <= x <= x_bound,
    ;
}

/// Within 1900..=2100 the scaled polynomial stays close to its linear part.
pub proof fn lemma_polynomial_near_linear(kind: SolarEventKind, year: int)
    requires
        1900 <= year <= 2100,
    ensures
        ({
            let (base, linear, _q, _c, _k) = event_coefficients(kind);
            let linear_part = base * 1_000_000_000_000 + linear * (year - 2000) * 1_000_000_000;
            &&& linear_part - 100_000_000_000_000 <= scaled_event_polynomial(kind, year)
            &&& scaled_event_polynomial(kind, year) <= linear_part + 100_000_000_000_000
        }),
{
    let t = year - 2000;
    let (base, linear, quadratic, cubic, quartic) = event_coefficients(kind);
    lemma_small_powers(t);
    lemma_product_bound(quadratic, t * t, 6000, 10000);
    lemma_product_bound(cubic, t * t * t, 7000, 1000000);
    lemma_product_bound(quartic, t * t * t * t, 12000, 100000000);
    assert(quadratic * (t * t) * 1_000_000 == (quadratic * (t * t)) * 1_000_000);
}

/// Within 1900..=2100 the estimate lies within 101 hundred-thousandths of a
/// day of `base + linear * (year - 2000) / 1000`.
pub proof fn lemma_estimate_near_linear(kind: SolarEventKind, year: int)
    requires
        1900 <= year <= 2100,
    ensures
        ({
            let (base, linear, _q, _c, _k) = event_coefficients(kind);
            let u = estimated_units(kind, year);
            &&& 1000 * base + linear * (year - 2000) - 101000 <= 1000 * u
            &&& 1000 * u <= 1000 * base + linear * (year - 2000) + 101000
        }),
{
    lemma_polynomial_near_linear(kind, year);
    let (base, linear, _q, _c, _k) = event_coefficients(kind);
    let p = scaled_event_polynomial(kind, year);
    let u = estimated_units(kind, year);
    let t = year - 2000;
    assert(linear * t * 1_000_000_000 == (linear * t) * 1_000_000_000);
    assert(p >= 0) by {
        match kind {
            SolarEventKind::MarchEquinox => {},
            SolarEventKind::JuneSolstice => {},
            SolarEventKind::SeptemberEquinox => {},
            SolarEventKind::DecemberSolstice => {},
        }
    }
    assert(u == (p + 500_000_000_000) / 1_000_000_000_000);
}

/// Estimates the Julian Day Number of the event in `year` with the event's
/// polynomial in `m = (year - 2000) / 1000`, rounded to five decimals (halves
/// away from zero). Exact, so the rounding never fails.
pub fn estimate_event_julian_day(kind: SolarEventKind, year: i32) -> (r: JulianDayNumber)
    requires
        1900 <= year <= 2100,
    ensures
        r@ == estimated_units(kind, year as int),
{
    let (base, linear, quadratic, cubic, quartic) = kind.julian_day_constants();
    let t: i128 = year as i128 - 2000;
    proof {
        lemma_small_powers(t as int);
        lemma_polynomial_near_linear(kind, year as int);
    }
    let t2: i128 = t * t;
    let t3: i128 = t2 * t;
    let t4: i128 = t3 * t;
    let n: i128 = base as i128 * 1_000_000_000_000 + linear as i128 * t * 1_000_000_000 + quadratic
        as i128 * t2 * 1_000_000 + cubic as i128 * t3 * 1000 + quartic as i128 * t4;
    assert(n == scaled_event_polynomial(kind, year as int));
    let units: i128 = (n + 500_000_000_000) / 1_000_000_000_000;
    assert(units == estimated_units(kind, year as int));
    JulianDayNumber::from_units_in_range(units as i64)
}

} // verus!
