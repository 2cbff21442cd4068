//! The [`ClarionDate`] struct.
use vstd::prelude::*;

use crate::calendar_date::CalendarDate;
use crate::clarion_err::ClarionErr;
use crate::codec::{
    date_offset_in_range, decode_date, decoded_julian_day, encode_date, encoded_date,
    EPOCH_JULIAN_DAY,
};

verus! {

/// A date in the Clarion format: the number of days from 28 December 1800 to the
/// date, negative for earlier dates. Every `i32` is a Clarion date; decoding
/// one whose date is not representable fails.
#[derive(Clone, Copy, Debug, PartialEq, Eq, Structural, Hash, PartialOrd, Ord)]
pub struct ClarionDate {
    date: i32,
}

impl View for ClarionDate {
    type V = int;

    /// The day offset.
    closed spec fn view(&self) -> int {
        self.date as int
    }
}

impl ClarionDate {
    /// The Clarion date `date` days after 28 December 1800 (before it, for a
    /// negative count). Whether its date is representable is checked when it
    /// is decoded.
    pub fn new(date: i32) -> (r: ClarionDate)
        ensures
            r@ == date,
    {
        ClarionDate { date }
    }

    /// The Clarion date `date` days after 28 December 1800, checked at once:
    /// `ClarionErr::OutOfRange` where its date is not representable.
    pub fn new_checked(date: i32) -> (r: Result<ClarionDate, ClarionErr>)
        ensures
            r is Ok <==> date_offset_in_range(date as int),
            r matches Ok(d) ==> d@ == date,
            r matches Err(e) ==> e == ClarionErr::OutOfRange,
    {
        match decode_date(date) {
            Ok(_) => Ok(ClarionDate { date }),
            Err(_) => Err(ClarionErr::OutOfRange),
        }
    }

    /// The number of days from 28 December 1800 to this date.
    pub fn date(&self) -> (r: i32)
        ensures
            r == self@,
    {
        self.date
    }

    /// The Clarion date of `date`.
    pub fn from_calendar_date(date: CalendarDate) -> (r: ClarionDate)
        ensures
            r@ == encoded_date(date@),
    {
        ClarionDate { date: encode_date(date) }
    }

    /// The calendar date that this Clarion date encodes;
    /// `ClarionErr::ConversionOverflowed` where it is not representable.
    pub fn to_calendar_date(&self) -> (r: Result<CalendarDate, ClarionErr>)
        ensures
            r is Ok <==> date_offset_in_range(self@),
            r matches Ok(d) ==> d@ == decoded_julian_day(self@),
            r matches Err(e) ==> e == ClarionErr::ConversionOverflowed,
    {
        decode_date(self.date)
    }
}

impl From<CalendarDate> for ClarionDate {
    /// The Clarion date of `date`.
    fn from(date: CalendarDate) -> (r: Self)
        ensures
            r@ == encoded_date(date@),
    {
        ClarionDate::from_calendar_date(date)
    }
}

impl vstd::std_specs::convert::FromSpecImpl<CalendarDate> for ClarionDate {
    open spec fn obeys_from_spec() -> bool {
        true
    }

    closed spec fn from_spec(v: CalendarDate) -> ClarionDate {
        ClarionDate { date: encoded_date(v@) as i32 }
    }
}

impl TryFrom<ClarionDate> for CalendarDate {
    type Error = ClarionErr;

    /// The calendar date that `value` encodes;
    /// `ClarionErr::ConversionOverflowed` where it is not representable.
    fn try_from(value: ClarionDate) -> (r: Result<CalendarDate, ClarionErr>)
        ensures
            r is Ok <==> date_offset_in_range(value@),
            r matches Ok(d) ==> d@ == decoded_julian_day(value@),
            r matches Err(e) ==> e == ClarionErr::ConversionOverflowed,
    {
        let r = value.to_calendar_date();
        proof {
            if let Ok(d) = r {
                CalendarDate::lemma_spec_from_julian_day(decoded_julian_day(value@));
                CalendarDate::lemma_view_injective(
                    d,
                    CalendarDate::spec_from_julian_day(decoded_julian_day(value@)),
                );
            }
        }
        r
    }
}

impl vstd::std_specs::convert::TryFromSpecImpl<ClarionDate> for CalendarDate {
    open spec fn obeys_try_from_spec() -> bool {
        true
    }

    open spec fn try_from_spec(v: ClarionDate) -> Result<CalendarDate, ClarionErr> {
        if date_offset_in_range(v@) {
            Ok(CalendarDate::spec_from_julian_day(EPOCH_JULIAN_DAY + v@))
        } else {
            Err(ClarionErr::ConversionOverflowed)
        }
    }
}

} // verus!
