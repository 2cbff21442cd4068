//! The [`CSDate`] struct.
use vstd::prelude::*;

use crate::calendar_date::CalendarDate;
use crate::codec::{
    date_offset_in_range, decode_date, decoded_julian_day, encode_date, encoded_date,
    EPOCH_JULIAN_DAY,
};
use crate::cserr::CSErr;

verus! {

/// A date as the number of days from 28 December 1800, negative for earlier
/// dates, with the offset open to callers. Every `i32` is such a date; decoding
/// one whose date is not representable fails.
#[derive(Clone, Copy, Debug, PartialEq, Eq, Structural, Hash, PartialOrd, Ord)]
pub struct CSDate {
    /// The number of days from 28 December 1800 to this date.
    pub date: i32,
}

impl CSDate {
    /// The date `date` days after 28 December 1800 (before it, for a negative
    /// count).
    pub fn new(date: i32) -> (r: CSDate)
        ensures
            r.date == date,
    {
        CSDate { date }
    }
}

impl From<CalendarDate> for CSDate {
    /// The day offset of `date`.
    fn from(date: CalendarDate) -> (r: Self)
        ensures
            r.date == encoded_date(date@),
    {
        CSDate { date: encode_date(date) }
    }
}

impl vstd::std_specs::convert::FromSpecImpl<CalendarDate> for CSDate {
    open spec fn obeys_from_spec() -> bool {
        true
    }

    open spec fn from_spec(v: CalendarDate) -> CSDate {
        CSDate { date: encoded_date(v@) as i32 }
    }
}

impl TryFrom<CSDate> for CalendarDate {
    type Error = CSErr;

    /// The calendar date that `value` encodes; `CSErr::ConversionOverflowed`
    /// where it is not representable.
    fn try_from(value: CSDate) -> (r: Result<CalendarDate, CSErr>)
        ensures
            r is Ok <==> date_offset_in_range(value.date as int),
            r matches Ok(d) ==> d@ == decoded_julian_day(value.date as int),
    {
        match decode_date(value.date) {
            Ok(d) => {
                proof {
                    CalendarDate::lemma_spec_from_julian_day(decoded_julian_day(value.date as int));
                    CalendarDate::lemma_view_injective(
                        d,
                        CalendarDate::spec_from_julian_day(decoded_julian_day(value.date as int)),
                    );
                }
                Ok(d)
            },
            Err(_) => Err(CSErr::ConversionOverflowed),
        }
    }
}

impl vstd::std_specs::convert::TryFromSpecImpl<CSDate> for CalendarDate {
    open spec fn obeys_try_from_spec() -> bool {
        true
    }

    open spec fn try_from_spec(v: CSDate) -> Result<CalendarDate, CSErr> {
        if date_offset_in_range(v.date as int) {
            Ok(CalendarDate::spec_from_julian_day(EPOCH_JULIAN_DAY + v.date))
        } else {
            Err(CSErr::ConversionOverflowed)
        }
    }
}

} // verus!
