//! The [`CalendarDate`] type: a date of the proleptic Gregorian calendar,
//! held as its Julian day number.
use vstd::prelude::*;

verus! {

/// Smallest Julian day that a [`CalendarDate`] can hold: 1 January of year -9999.
pub const MIN_JULIAN_DAY: i32 = -1_930_999;

/// Largest Julian day that a [`CalendarDate`] can hold: 31 December 9999.
pub const MAX_JULIAN_DAY: i32 = 5_373_484;

/// Smallest year that a [`CalendarDate`] can hold.
pub const MIN_YEAR: i32 = -9999;

/// Largest year that a [`CalendarDate`] can hold.
pub const MAX_YEAR: i32 = 9999;

/// The Julian days that a [`CalendarDate`] can hold.
pub open spec fn valid_julian_day(jd: int) -> bool {
    MIN_JULIAN_DAY <= jd <= MAX_JULIAN_DAY
}

/// Leap years of the proleptic Gregorian calendar.
pub open spec fn is_leap_year(year: int) -> bool {
    year % 4 == 0 && (year % 100 != 0 || year % 400 == 0)
}

/// Number of days in `month` (1 to 12) of `year`.
pub open spec fn days_in_month(year: int, month: int) -> int {
    if month == 2 {
        if is_leap_year(year) {
            29
        } else {
            28
        }
    } else if month == 4 || month == 6 || month == 9 || month == 11 {
        30
    } else {
        31
    }
}

/// Year, month (1 to 12) and day that name a representable date.
pub open spec fn is_calendar_date(year: int, month: int, day: int) -> bool {
    &&& MIN_YEAR <= year <= MAX_YEAR
    &&& 1 <= month <= 12
    &&& 1 <= day <= days_in_month(year, month)
}

/// The Julian day number of a calendar date, as the `time` crate computes it.
pub uninterp spec fn julian_day_of(year: int, month: int, day: int) -> int;

/// Relies on `time::Month::try_from`, `time::Date::from_calendar_date` and
/// `time::Date::to_julian_day`: the date is accepted exactly when its year lies in
/// -9999..=9999, its month in 1..=12 and its day within that month, and then has a
/// Julian day within the representable range.
#[verifier::external_body]
fn julian_day_from_calendar(year: i32, month: u8, day: u8) -> (r: Option<i32>)
    ensures
        r.is_some() <==> is_calendar_date(year as int, month as int, day as int),
        r matches Some(jd) ==> jd == julian_day_of(year as int, month as int, day as int)
            && valid_julian_day(jd as int),
{
    match time::Month::try_from(month) {
        Ok(m) => match time::Date::from_calendar_date(year, m, day) {
            Ok(d) => Some(d.to_julian_day()),
            Err(_) => None,
        },
        Err(_) => None,
    }
}

/// Relies on `time::Date::from_julian_day` and `time::Date::to_calendar_date`: a Julian
/// day is accepted exactly within `MIN_JULIAN_DAY..=MAX_JULIAN_DAY`, and the calendar
/// date returned for it is one whose Julian day it is.
#[verifier::external_body]
fn calendar_from_julian_day(jd: i32) -> (r: Option<(i32, u8, u8)>)
    ensures
        r.is_some() <==> valid_julian_day(jd as int),
        r matches Some(ymd) ==> is_calendar_date(ymd.0 as int, ymd.1 as int, ymd.2 as int)
            && julian_day_of(ymd.0 as int, ymd.1 as int, ymd.2 as int) == jd,
{
    match time::Date::from_julian_day(jd) {
        Ok(d) => {
            let (year, month, day) = d.to_calendar_date();
            Some((year, month as u8, day))
        },
        Err(_) => None,
    }
}

/// Relies on `time::Date::from_julian_day`, `time::Duration::days` and
/// `time::Date::checked_add`: adding whole days moves the Julian day by that many,
/// and fails exactly when the result leaves the representable range.
#[verifier::external_body]
fn checked_add_days_to_julian_day(jd: i32, days: i32) -> (r: Option<i32>)
    requires
        valid_julian_day(jd as int),
    ensures
        r == (if valid_julian_day(jd + days) {
            Some((jd + days) as i32)
        } else {
            None
        }),
{
    match time::Date::from_julian_day(jd) {
        Ok(d) => match d.checked_add(time::Duration::days(days as i64)) {
            Some(e) => Some(e.to_julian_day()),
            None => None,
        },
        Err(_) => None,
    }
}

/// A date of the proleptic Gregorian calendar between 1 January -9999 and
/// 31 December 9999, held as its Julian day number.
#[derive(Clone, Copy, Debug, PartialEq, Eq, Structural, Hash, PartialOrd, Ord)]
pub struct CalendarDate {
    julian_day: i32,
}

impl View for CalendarDate {
    type V = int;

    /// The Julian day number of the date.
    closed spec fn view(&self) -> int {
        self.julian_day as int
    }
}

impl CalendarDate {
    #[verifier::type_invariant]
    spec fn inv(self) -> bool {
        valid_julian_day(self.julian_day as int)
    }

    /// Two dates with the same Julian day are the same date.
    pub proof fn lemma_view_injective(a: CalendarDate, b: CalendarDate)
        ensures
            a@ == b@ <==> a == b,
    {
    }

    /// The date with Julian day `jd`, for a representable `jd`.
    pub closed spec fn spec_from_julian_day(jd: int) -> CalendarDate {
        CalendarDate { julian_day: jd as i32 }
    }

    /// The date named by a representable Julian day has that Julian day.
    pub proof fn lemma_spec_from_julian_day(jd: int)
        requires
            valid_julian_day(jd),
        ensures
            Self::spec_from_julian_day(jd)@ == jd,
    {
    }

    /// The date with the given Julian day number, if it is representable.
    pub fn from_julian_day(jd: i32) -> (r: Option<CalendarDate>)
        ensures
            r.is_some() <==> valid_julian_day(jd as int),
            r matches Some(d) ==> d@ == jd,
    {
        if MIN_JULIAN_DAY <= jd && jd <= MAX_JULIAN_DAY {
            Some(CalendarDate { julian_day: jd })
        } else {
            None
        }
    }

    /// The date with the given year, month (1 to 12) and day of the month, if that
    /// names a day of the proleptic Gregorian calendar between the years -9999 and
    /// 9999.
    pub fn from_calendar_date(year: i32, month: u8, day: u8) -> (r: Option<CalendarDate>)
        ensures
            r.is_some() <==> is_calendar_date(year as int, month as int, day as int),
            r matches Some(d) ==> d@ == julian_day_of(year as int, month as int, day as int),
    {
        match julian_day_from_calendar(year, month, day) {
            Some(jd) => Some(CalendarDate { julian_day: jd }),
            None => None,
        }
    }

    /// The Julian day number of this date.
    pub fn julian_day(&self) -> (r: i32)
        ensures
            r == self@,
            valid_julian_day(r as int),
    {
        proof {
            use_type_invariant(self);
        }
        self.julian_day
    }

    /// The year, month (1 to 12) and day of the month of this date.
    pub fn to_calendar_date(&self) -> (r: (i32, u8, u8))
        ensures
            is_calendar_date(r.0 as int, r.1 as int, r.2 as int),
            julian_day_of(r.0 as int, r.1 as int, r.2 as int) == self@,
    {
        proof {
            use_type_invariant(self);
        }
        calendar_from_julian_day(self.julian_day).unwrap()
    }

    /// The date `days` days after this one (before it, for a negative count), or
    /// `None` where that date is not representable.
    pub fn checked_add_days(&self, days: i32) -> (r: Option<CalendarDate>)
        ensures
            r.is_some() <==> valid_julian_day(self@ + days),
            r matches Some(d) ==> d@ == self@ + days,
    {
        proof {
            use_type_invariant(self);
        }
        match checked_add_days_to_julian_day(self.julian_day, days) {
            Some(jd) => Some(CalendarDate { julian_day: jd }),
            None => None,
        }
    }

    /// The number of days from `other` to this date.
    pub fn days_since(&self, other: &CalendarDate) -> (r: i32)
        ensures
            r == self@ - other@,
    {
        proof {
            use_type_invariant(self);
            use_type_invariant(other);
        }
        self.julian_day - other.julian_day
    }
}

} // verus!
