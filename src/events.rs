//! The four annual solar events of a year.
use vstd::prelude::*;

use crate::calendar::{CalendarDateTime, DateTimeParts};
use crate::converter::{
    conversion_terms, datetime_of_julian_day, day_fraction_of, day_number_of, julian_calendar_count,
    julian_day_to_datetime,
};
use crate::error::AnnualSolarEventError;
use crate::estimator::{
    estimate_event_julian_day, event_coefficients, estimated_units, lemma_estimate_near_linear,
    SolarEventKind,
};
use crate::julian_day::JulianDayNumber;
use crate::time_utils::lemma_time_of_day_stays_within_day;

verus! {

/// The month in which the event falls.
pub open spec fn event_month(kind: SolarEventKind) -> int {
    match kind {
        SolarEventKind::MarchEquinox => 3,
        SolarEventKind::JuneSolstice => 6,
        SolarEventKind::SeptemberEquinox => 9,
        SolarEventKind::DecemberSolstice => 12,
    }
}

/// The date and time of the event in `year`: its estimated Julian Day Number, converted.
pub open spec fn event_datetime(kind: SolarEventKind, year: int) -> Result<DateTimeParts, AnnualSolarEventError> {
    datetime_of_julian_day(estimated_units(kind, year))
}

/// A Julian Day Number near the event's linear estimate for a year in
/// 1900..=2100 converts into that year, in the event's month.
proof fn lemma_conversion_in_year(kind: SolarEventKind, year: int, u: int)
    requires
        1900 <= year <= 2100,
        ({
            let (base, linear, _q, _c, _k) = event_coefficients(kind);
            &&& 1000 * base + linear * (year - 2000) - 101000 <= 1000 * u
            &&& 1000 * u <= 1000 * base + linear * (year - 2000) + 101000
        }),
    ensures
        datetime_of_julian_day(u) is Ok,
        datetime_of_julian_day(u)->Ok_0.year == year,
        datetime_of_julian_day(u)->Ok_0.month == event_month(kind),
{
    let z = day_number_of(u);
    let (b, c, d, e) = conversion_terms(z);
    lemma_time_of_day_stays_within_day(day_fraction_of(u));
    // Up to 2100-02-28 the Julian calendar runs 13 days behind, then 14.
    if year < 2100 {
        assert(2415080 <= z <= 2488127 && julian_calendar_count(z) == z + 13);
    } else {
        assert(2488128 <= z <= 2488434 && julian_calendar_count(z) == z + 14);
    }
    assert(c == year + 4716);
    assert(e == event_month(kind) + 1);
}

/// For every year in 1900..=2100 and every event, converting the estimated
/// Julian Day Number succeeds and gives a date in that very year (in the
/// event's month).
pub proof fn lemma_event_falls_in_its_year(kind: SolarEventKind, year: int)
    requires
        1900 <= year <= 2100,
    ensures
        event_datetime(kind, year) is Ok,
        event_datetime(kind, year)->Ok_0.year == year,
        event_datetime(kind, year)->Ok_0.month == event_month(kind),
{
    lemma_estimate_near_linear(kind, year);
    lemma_conversion_in_year(kind, year, estimated_units(kind, year));
}

/// Estimating and converting depend on their inputs alone: the same event and
/// year always give the same Julian Day Number and the same date and time.
pub proof fn lemma_event_is_deterministic(
    kind: SolarEventKind,
    year: int,
    other_kind: SolarEventKind,
    other_year: int,
)
    requires
        kind == other_kind,
        year == other_year,
    ensures
        estimated_units(kind, year) == estimated_units(other_kind, other_year),
        event_datetime(kind, year) == event_datetime(other_kind, other_year),
{
}

/// The first year for which events are calculated.
pub const FIRST_YEAR: i32 = 1900;

/// The last year for which events are calculated.
pub const LAST_YEAR: i32 = 2100;

/// Checks that `year` lies in 1900..=2100.
pub fn year_in_range(year: i32) -> (r: Result<(), AnnualSolarEventError>)
    ensures
        FIRST_YEAR <= year <= LAST_YEAR ==> r is Ok,
        !(FIRST_YEAR <= year <= LAST_YEAR) ==> r == Err::<(), AnnualSolarEventError>(
            AnnualSolarEventError::YearOutOfRange(year),
        ),
{
    if year < FIRST_YEAR || year > LAST_YEAR {
        return Err(AnnualSolarEventError::YearOutOfRange(year));
    }
    Ok(())
}

/// What an event value holds: the estimated Julian Day Number of the event in
/// a year of 1900..=2100 and the date and time it converts into, which lies in
/// that year.
pub struct SolarEventView {
    pub julian_day: int,
    pub date_time: DateTimeParts,
}

/// `julian_day` and `date_time` are those of the event in the year of `date_time`.
pub open spec fn is_event_of_its_year(kind: SolarEventKind, view: SolarEventView) -> bool {
    &&& FIRST_YEAR <= view.date_time.year <= LAST_YEAR
    &&& view.julian_day == estimated_units(kind, view.date_time.year)
    &&& event_datetime(kind, view.date_time.year) == Ok::<DateTimeParts, AnnualSolarEventError>(
        view.date_time,
    )
}

/// The estimated Julian Day Number of the event in `year` and its date and
/// time, or the error for a year outside 1900..=2100.
pub fn event_for_year(kind: SolarEventKind, year: i32) -> (r: Result<
    (JulianDayNumber, CalendarDateTime),
    AnnualSolarEventError,
>)
    ensures
        !(FIRST_YEAR <= year <= LAST_YEAR) ==> r == Err::<
            (JulianDayNumber, CalendarDateTime),
            AnnualSolarEventError,
        >(AnnualSolarEventError::YearOutOfRange(year)),
        FIRST_YEAR <= year <= LAST_YEAR ==> r is Ok,
        r is Ok ==> r->Ok_0.1@.year == year && is_event_of_its_year(
            kind,
            SolarEventView { julian_day: r->Ok_0.0@, date_time: r->Ok_0.1@ },
        ),
{
    match year_in_range(year) {
        Ok(()) => {},
        Err(err) => return Err(err),
    }
    let julian_day = estimate_event_julian_day(kind, year);
    proof {
        lemma_event_falls_in_its_year(kind, year as int);
    }
    match julian_day_to_datetime(julian_day) {
        Ok(date_time) => Ok((julian_day, date_time)),
        Err(err) => Err(err),
    }
}

/// The March equinox of a year.
#[derive(Clone, Copy, Debug)]
pub struct MarchEquinox {
    julian_day: JulianDayNumber,
    date_time: CalendarDateTime,
}

impl View for MarchEquinox {
    type V = SolarEventView;

    closed spec fn view(&self) -> SolarEventView {
        SolarEventView { julian_day: self.julian_day@, date_time: self.date_time@ }
    }
}

impl MarchEquinox {
    #[verifier::type_invariant]
    spec fn of_its_year(self) -> bool {
        is_event_of_its_year(SolarEventKind::MarchEquinox, self@)
    }

    /// The event in `year`; fails when the year lies outside 1900..=2100.
    pub fn for_year(year: i32) -> (r: Result<MarchEquinox, AnnualSolarEventError>)
        ensures
            !(FIRST_YEAR <= year <= LAST_YEAR) ==> r == Err::<MarchEquinox, AnnualSolarEventError>(
                AnnualSolarEventError::YearOutOfRange(year),
            ),
            FIRST_YEAR <= year <= LAST_YEAR ==> r is Ok,
            r is Ok ==> r->Ok_0@.date_time.year == year && is_event_of_its_year(
                SolarEventKind::MarchEquinox,
                r->Ok_0@,
            ),
    {
        match event_for_year(SolarEventKind::MarchEquinox, year) {
            Ok((julian_day, date_time)) => Ok(MarchEquinox { julian_day, date_time }),
            Err(err) => Err(err),
        }
    }

    /// The UTC date and time of the event.
    pub fn date_time(&self) -> (r: CalendarDateTime)
        ensures
            r@ == self@.date_time,
            is_event_of_its_year(SolarEventKind::MarchEquinox, self@),
    {
        proof {
            use_type_invariant(self);
        }
        self.date_time
    }

    /// The estimated Julian Day Number of the event.
    pub fn julian_day(&self) -> (r: JulianDayNumber)
        ensures
            r@ == self@.julian_day,
            is_event_of_its_year(SolarEventKind::MarchEquinox, self@),
    {
        proof {
            use_type_invariant(self);
        }
        self.julian_day
    }

    /// The year of the event's date.
    pub fn year(&self) -> (r: i32)
        ensures
            r as int == self@.date_time.year,
            is_event_of_its_year(SolarEventKind::MarchEquinox, self@),
    {
        proof {
            use_type_invariant(self);
        }
        self.date_time.year()
    }
}

/// The June solstice of a year.
#[derive(Clone, Copy, Debug)]
pub struct JuneSolstice {
    julian_day: JulianDayNumber,
    date_time: CalendarDateTime,
}

impl View for JuneSolstice {
    type V = SolarEventView;

    closed spec fn view(&self) -> SolarEventView {
        SolarEventView { julian_day: self.julian_day@, date_time: self.date_time@ }
    }
}

impl JuneSolstice {
    #[verifier::type_invariant]
    spec fn of_its_year(self) -> bool {
        is_event_of_its_year(SolarEventKind::JuneSolstice, self@)
    }

    /// The event in `year`; fails when the year lies outside 1900..=2100.
    pub fn for_year(year: i32) -> (r: Result<JuneSolstice, AnnualSolarEventError>)
        ensures
            !(FIRST_YEAR <= year <= LAST_YEAR) ==> r == Err::<JuneSolstice, AnnualSolarEventError>(
                AnnualSolarEventError::YearOutOfRange(year),
            ),
            FIRST_YEAR <= year <= LAST_YEAR ==> r is Ok,
            r is Ok ==> r->Ok_0@.date_time.year == year && is_event_of_its_year(
                SolarEventKind::JuneSolstice,
                r->Ok_0@,
            ),
    {
        match event_for_year(SolarEventKind::JuneSolstice, year) {
            Ok((julian_day, date_time)) => Ok(JuneSolstice { julian_day, date_time }),
            Err(err) => Err(err),
        }
    }

    /// The UTC date and time of the event.
    pub fn date_time(&self) -> (r: CalendarDateTime)
        ensures
            r@ == self@.date_time,
            is_event_of_its_year(SolarEventKind::JuneSolstice, self@),
    {
        proof {
            use_type_invariant(self);
        }
        self.date_time
    }

    /// The estimated Julian Day Number of the event.
    pub fn julian_day(&self) -> (r: JulianDayNumber)
        ensures
            r@ == self@.julian_day,
            is_event_of_its_year(SolarEventKind::JuneSolstice, self@),
    {
        proof {
            use_type_invariant(self);
        }
        self.julian_day
    }

    /// The year of the event's date.
    pub fn year(&self) -> (r: i32)
        ensures
            r as int == self@.date_time.year,
            is_event_of_its_year(SolarEventKind::JuneSolstice, self@),
    {
        proof {
            use_type_invariant(self);
        }
        self.date_time.year()
    }
}

/// The September equinox of a year.
#[derive(Clone, Copy, Debug)]
pub struct SeptemberEquinox {
    julian_day: JulianDayNumber,
    date_time: CalendarDateTime,
}

impl View for SeptemberEquinox {
    type V = SolarEventView;

    closed spec fn view(&self) -> SolarEventView {
        SolarEventView { julian_day: self.julian_day@, date_time: self.date_time@ }
    }
}

impl SeptemberEquinox {
    #[verifier::type_invariant]
    spec fn of_its_year(self) -> bool {
        is_event_of_its_year(SolarEventKind::SeptemberEquinox, self@)
    }

    /// The event in `year`; fails when the year lies outside 1900..=2100.
    pub fn for_year(year: i32) -> (r: Result<SeptemberEquinox, AnnualSolarEventError>)
        ensures
            !(FIRST_YEAR <= year <= LAST_YEAR) ==> r == Err::<SeptemberEquinox, AnnualSolarEventError>(
                AnnualSolarEventError::YearOutOfRange(year),
            ),
            FIRST_YEAR <= year <= LAST_YEAR ==> r is Ok,
            r is Ok ==> r->Ok_0@.date_time.year == year && is_event_of_its_year(
                SolarEventKind::SeptemberEquinox,
                r->Ok_0@,
            ),
    {
        match event_for_year(SolarEventKind::SeptemberEquinox, year) {
            Ok((julian_day, date_time)) => Ok(SeptemberEquinox { julian_day, date_time }),
            Err(err) => Err(err),
        }
    }

    /// The UTC date and time of the event.
    pub fn date_time(&self) -> (r: CalendarDateTime)
        ensures
            r@ == self@.date_time,
            is_event_of_its_year(SolarEventKind::SeptemberEquinox, self@),
    {
        proof {
            use_type_invariant(self);
        }
        self.date_time
    }

    /// The estimated Julian Day Number of the event.
    pub fn julian_day(&self) -> (r: JulianDayNumber)
        ensures
            r@ == self@.julian_day,
            is_event_of_its_year(SolarEventKind::SeptemberEquinox, self@),
    {
        proof {
            use_type_invariant(self);
        }
        self.julian_day
    }

    /// The year of the event's date.
    pub fn year(&self) -> (r: i32)
        ensures
            r as int == self@.date_time.year,
            is_event_of_its_year(SolarEventKind::SeptemberEquinox, self@),
    {
        proof {
            use_type_invariant(self);
        }
        self.date_time.year()
    }
}

/// The December solstice of a year.
#[derive(Clone, Copy, Debug)]
pub struct DecemberSolstice {
    julian_day: JulianDayNumber,
    date_time: CalendarDateTime,
}

impl View for DecemberSolstice {
    type V = SolarEventView;

    closed spec fn view(&self) -> SolarEventView {
        SolarEventView { julian_day: self.julian_day@, date_time: self.date_time@ }
    }
}

impl DecemberSolstice {
    #[verifier::type_invariant]
    spec fn of_its_year(self) -> bool {
        is_event_of_its_year(SolarEventKind::DecemberSolstice, self@)
    }

    /// The event in `year`; fails when the year lies outside 1900..=2100.
    pub fn for_year(year: i32) -> (r: Result<DecemberSolstice, AnnualSolarEventError>)
        ensures
            !(FIRST_YEAR <= year <= LAST_YEAR) ==> r == Err::<DecemberSolstice, AnnualSolarEventError>(
                AnnualSolarEventError::YearOutOfRange(year),
            ),
            FIRST_YEAR <= year <= LAST_YEAR ==> r is Ok,
            r is Ok ==> r->Ok_0@.date_time.year == year && is_event_of_its_year(
                SolarEventKind::DecemberSolstice,
                r->Ok_0@,
            ),
    {
        match event_for_year(SolarEventKind::DecemberSolstice, year) {
            Ok((julian_day, date_time)) => Ok(DecemberSolstice { julian_day, date_time }),
            Err(err) => Err(err),
        }
    }

    /// The UTC date and time of the event.
    pub fn date_time(&self) -> (r: CalendarDateTime)
        ensures
            r@ == self@.date_time,
            is_event_of_its_year(SolarEventKind::DecemberSolstice, self@),
    {
        proof {
            use_type_invariant(self);
        }
        self.date_time
    }

    /// The estimated Julian Day Number of the event.
    pub fn julian_day(&self) -> (r: JulianDayNumber)
        ensures
            r@ == self@.julian_day,
            is_event_of_its_year(SolarEventKind::DecemberSolstice, self@),
    {
        proof {
            use_type_invariant(self);
        }
        self.julian_day
    }

    /// The year of the event's date.
    pub fn year(&self) -> (r: i32)
        ensures
            r as int == self@.date_time.year,
            is_event_of_its_year(SolarEventKind::DecemberSolstice, self@),
    {
        proof {
            use_type_invariant(self);
        }
        self.date_time.year()
    }
}

/// All four solar events (March equinox, June solstice, September equinox and
/// December solstice) of one year.
#[derive(Clone, Copy, Debug)]
pub struct AnnualSolarEvents {
    march_equinox: MarchEquinox,
    june_solstice: JuneSolstice,
    september_equinox: SeptemberEquinox,
    december_solstice: DecemberSolstice,
}

impl AnnualSolarEvents {
    #[verifier::type_invariant]
    spec fn of_one_year(self) -> bool {
        &&& self.june_solstice@.date_time.year == self.march_equinox@.date_time.year
        &&& self.september_equinox@.date_time.year == self.march_equinox@.date_time.year
        &&& self.december_solstice@.date_time.year == self.march_equinox@.date_time.year
    }

    /// The year of the four events.
    pub closed spec fn events_year(&self) -> int {
        self.march_equinox@.date_time.year
    }

    /// The four events of `year`; fails when the year lies outside 1900..=2100.
    pub fn for_year(year: i32) -> (r: Result<AnnualSolarEvents, AnnualSolarEventError>)
        ensures
            !(FIRST_YEAR <= year <= LAST_YEAR) ==> r == Err::<AnnualSolarEvents, AnnualSolarEventError>(
                AnnualSolarEventError::YearOutOfRange(year),
            ),
            FIRST_YEAR <= year <= LAST_YEAR ==> r is Ok,
            r is Ok ==> r->Ok_0.events_year() == year,
    {
        let march_equinox = match MarchEquinox::for_year(year) {
            Ok(event) => event,
            Err(err) => return Err(err),
        };
        let june_solstice = match JuneSolstice::for_year(year) {
            Ok(event) => event,
            Err(err) => return Err(err),
        };
        let september_equinox = match SeptemberEquinox::for_year(year) {
            Ok(event) => event,
            Err(err) => return Err(err),
        };
        let december_solstice = match DecemberSolstice::for_year(year) {
            Ok(event) => event,
            Err(err) => return Err(err),
        };
        Ok(AnnualSolarEvents { march_equinox, june_solstice, september_equinox, december_solstice })
    }

    /// The March equinox.
    pub fn march_equinox(&self) -> (r: &MarchEquinox)
        ensures
            r@.date_time.year == self.events_year(),
    {
        &self.march_equinox
    }

    /// The June solstice.
    pub fn june_solstice(&self) -> (r: &JuneSolstice)
        ensures
            r@.date_time.year == self.events_year(),
    {
        proof {
            use_type_invariant(self);
        }
        &self.june_solstice
    }

    /// The September equinox.
    pub fn september_equinox(&self) -> (r: &SeptemberEquinox)
        ensures
            r@.date_time.year == self.events_year(),
    {
        proof {
            use_type_invariant(self);
        }
        &self.september_equinox
    }

    /// The December solstice.
    pub fn december_solstice(&self) -> (r: &DecemberSolstice)
        ensures
            r@.date_time.year == self.events_year(),
    {
        proof {
            use_type_invariant(self);
        }
        &self.december_solstice
    }

    /// The year of these solar events.
    pub fn year(&self) -> (r: i32)
        ensures
            r as int == self.events_year(),
    {
        self.march_equinox.year()
    }
}

} // verus!
