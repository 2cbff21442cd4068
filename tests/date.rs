use clarion::{
    clarion_epoch, decode_date, encode_date, CSDate, CSErr, CalendarDate, ClarionDate,
    ClarionErr,
};

#[test]
fn clarion_date_date_i32_max() {
    let c_date = ClarionDate::new(i32::MAX);
    let date: Result<CalendarDate, ClarionErr> = c_date.try_into();
    assert_eq!(date, Err(ClarionErr::ConversionOverflowed));
}

#[test]
fn clarion_date_date_i32_min() {
    let c_date = ClarionDate::new(i32::MIN);
    let date: Result<CalendarDate, ClarionErr> = c_date.try_into();
    assert_eq!(date, Err(ClarionErr::ConversionOverflowed));
}

#[test]
fn cdate_to_date_zero() {
    let date = ClarionDate::new(0);
    let result: CalendarDate = date.try_into().unwrap();
    assert_eq!(result, CalendarDate::from_calendar_date(1800, 12, 28).unwrap());
}

#[test]
fn cdate_to_date_one() {
    let date = ClarionDate::new(1);
    let result: CalendarDate = date.try_into().unwrap();
    assert_eq!(result, CalendarDate::from_calendar_date(1800, 12, 29).unwrap());
}

#[test]
fn cdate_to_date_negative_one() {
    let date = ClarionDate::new(-1);
    let result: CalendarDate = date.try_into().unwrap();
    assert_eq!(result, CalendarDate::from_calendar_date(1800, 12, 27).unwrap());
}

#[test]
fn date_to_cdate_date_min() {
    let min = time::Date::MIN;
    let date = CalendarDate::from_calendar_date(min.year(), min.month() as u8, min.day()).unwrap();
    let result: ClarionDate = date.into();
    assert_eq!(result.date(), -4309857);
}

#[test]
fn date_to_cdate_date_max() {
    let max = time::Date::MAX;
    let date = CalendarDate::from_calendar_date(max.year(), max.month() as u8, max.day()).unwrap();
    let result: ClarionDate = date.into();
    assert_eq!(result.date(), 2994626);
}

#[test]
fn date_to_cdate_millennium() {
    let date = CalendarDate::from_calendar_date(2000, 1, 1).unwrap();
    let result: ClarionDate = date.into();
    assert_eq!(result.date(), 72687);
}

#[test]
fn date_to_cdate_one() {
    let date = CalendarDate::from_calendar_date(0, 1, 2).unwrap();
    let result: ClarionDate = date.into();
    assert_eq!(result.date(), -657797);
}

#[test]
fn date_to_cdate_zero() {
    let date = CalendarDate::from_calendar_date(0, 1, 1).unwrap();
    let result: ClarionDate = date.into();
    assert_eq!(result.date(), -657798);
}

#[test]
fn date_to_cdate_negative_one() {
    let date = CalendarDate::from_calendar_date(-1, 12, 31).unwrap();
    let result: ClarionDate = date.into();
    assert_eq!(result.date(), -657799);
}

#[test]
fn date_to_cdate_reversibility() {
    let date = CalendarDate::from_calendar_date(2020, 6, 30).unwrap();
    let result: ClarionDate = date.into();
    let date2: CalendarDate = result.try_into().unwrap();
    assert_eq!(date, date2);
}

#[test]
fn csdate_date_i32_max() {
    let cs_date = CSDate { date: i32::MAX };
    let date: Result<CalendarDate, CSErr> = cs_date.try_into();
    assert_eq!(date, Err(CSErr::ConversionOverflowed));
}

#[test]
fn csdate_date_i32_min() {
    let cs_date = CSDate::new(i32::MIN);
    let date: Result<CalendarDate, CSErr> = cs_date.try_into();
    assert_eq!(date, Err(CSErr::ConversionOverflowed));
}

#[test]
fn csdate_to_date_zero() {
    let date = CSDate::new(0);
    let result: CalendarDate = date.try_into().unwrap();
    assert_eq!(result, CalendarDate::from_calendar_date(1800, 12, 28).unwrap());
}

#[test]
fn csdate_to_date_one() {
    let date = CSDate::new(1);
    let result: CalendarDate = date.try_into().unwrap();
    assert_eq!(result, CalendarDate::from_calendar_date(1800, 12, 29).unwrap());
}

#[test]
fn csdate_to_date_negative_one() {
    let date = CSDate::new(-1);
    let result: CalendarDate = date.try_into().unwrap();
    assert_eq!(result, CalendarDate::from_calendar_date(1800, 12, 27).unwrap());
}

#[test]
fn date_to_csdate_date_min() {
    let min = time::Date::MIN;
    let date = CalendarDate::from_calendar_date(min.year(), min.month() as u8, min.day()).unwrap();
    let result: CSDate = date.into();
    assert_eq!(result.date, -4309857);
}

#[test]
fn date_to_csdate_date_max() {
    let max = time::Date::MAX;
    let date = CalendarDate::from_calendar_date(max.year(), max.month() as u8, max.day()).unwrap();
    let result: CSDate = date.into();
    assert_eq!(result.date, 2994626);
}

#[test]
fn date_to_csdate_millennium() {
    let date = CalendarDate::from_calendar_date(2000, 1, 1).unwrap();
    let result: CSDate = date.into();
    assert_eq!(result.date, 72687);
}

#[test]
fn date_to_csdate_one() {
    let date = CalendarDate::from_calendar_date(0, 1, 2).unwrap();
    let result: CSDate = date.into();
    assert_eq!(result.date, -657797);
}

#[test]
fn date_to_csdate_zero() {
    let date = CalendarDate::from_calendar_date(0, 1, 1).unwrap();
    let result: CSDate = date.into();
    assert_eq!(result.date, -657798);
}

#[test]
fn date_to_csdate_negative_one() {
    let date = CalendarDate::from_calendar_date(-1, 12, 31).unwrap();
    let result: CSDate = date.into();
    assert_eq!(result.date, -657799);
}

#[test]
fn date_to_csdate_reversibility() {
    let date = CalendarDate::from_calendar_date(2020, 6, 30).unwrap();
    let result: CSDate = date.into();
    let date2: CalendarDate = result.try_into().unwrap();
    assert_eq!(date, date2);
}

#[test]
fn decode_one_beyond_the_bounds_overflows() {
    assert!(decode_date(-4_309_857).is_ok());
    assert!(decode_date(2_994_626).is_ok());
    assert_eq!(decode_date(-4_309_858), Err(ClarionErr::ConversionOverflowed));
    assert_eq!(decode_date(2_994_627), Err(ClarionErr::ConversionOverflowed));
    assert_eq!(
        decode_date(-4_309_857).unwrap().to_calendar_date(),
        (-9999, 1, 1)
    );
    assert_eq!(
        decode_date(2_994_626).unwrap().to_calendar_date(),
        (9999, 12, 31)
    );
}

#[test]
fn decode_known_offsets() {
    assert_eq!(decode_date(0).unwrap().to_calendar_date(), (1800, 12, 28));
    assert_eq!(decode_date(1).unwrap().to_calendar_date(), (1800, 12, 29));
    assert_eq!(decode_date(-1).unwrap().to_calendar_date(), (1800, 12, 27));
    assert_eq!(decode_date(72_687).unwrap().to_calendar_date(), (2000, 1, 1));
    assert_eq!(decode_date(80_727).unwrap().to_calendar_date(), (2022, 1, 5));
    assert_eq!(ClarionDate::new(80_173).to_calendar_date().unwrap().to_calendar_date(), (2020, 6, 30));
}

#[test]
fn encode_known_dates() {
    let d = CalendarDate::from_calendar_date(2022, 1, 5).unwrap();
    assert_eq!(encode_date(d), 80_727);
    assert_eq!(ClarionDate::from_calendar_date(d).date(), 80_727);
    assert_eq!(encode_date(clarion_epoch()), 0);
    assert_eq!(clarion_epoch().to_calendar_date(), (1800, 12, 28));
}

#[test]
fn eager_validation_rejects_unrepresentable_offsets() {
    assert_eq!(ClarionDate::new_checked(72_687).unwrap().date(), 72_687);
    assert_eq!(ClarionDate::new_checked(-4_309_857).unwrap().date(), -4_309_857);
    assert_eq!(ClarionDate::new_checked(2_994_627), Err(ClarionErr::OutOfRange));
    assert_eq!(ClarionDate::new_checked(-4_309_858), Err(ClarionErr::OutOfRange));
    assert_eq!(ClarionDate::new_checked(i32::MAX), Err(ClarionErr::OutOfRange));
}

#[test]
fn dates_round_trip() {
    for (y, m, d) in [(-9999, 1, 1), (-1, 12, 31), (0, 2, 29), (1800, 12, 28), (1900, 3, 1), (2000, 2, 29), (2024, 7, 15), (9999, 12, 31)] {
        let date = CalendarDate::from_calendar_date(y, m, d).unwrap();
        assert_eq!(date.to_calendar_date(), (y, m, d));
        assert_eq!(decode_date(encode_date(date)), Ok(date));
    }
    for offset in [-4_309_857, -657_799, -1, 0, 1, 72_687, 2_994_626] {
        assert_eq!(encode_date(decode_date(offset).unwrap()), offset);
    }
}

#[test]
fn calendar_dates_are_validated() {
    assert!(CalendarDate::from_calendar_date(2019, 2, 29).is_none());
    assert!(CalendarDate::from_calendar_date(1900, 2, 29).is_none());
    assert!(CalendarDate::from_calendar_date(2000, 2, 29).is_some());
    assert!(CalendarDate::from_calendar_date(2019, 4, 31).is_none());
    assert!(CalendarDate::from_calendar_date(2019, 13, 1).is_none());
    assert!(CalendarDate::from_calendar_date(2019, 0, 1).is_none());
    assert!(CalendarDate::from_calendar_date(2019, 1, 0).is_none());
    assert!(CalendarDate::from_calendar_date(10_000, 1, 1).is_none());
    assert!(CalendarDate::from_calendar_date(-10_000, 12, 31).is_none());
}

#[test]
fn julian_days_and_day_arithmetic() {
    let d = CalendarDate::from_calendar_date(2000, 1, 1).unwrap();
    assert_eq!(d.julian_day(), 2_451_545);
    assert_eq!(clarion_epoch().julian_day(), 2_378_858);
    assert_eq!(CalendarDate::from_julian_day(2_451_545), Some(d));
    assert_eq!(CalendarDate::from_julian_day(5_373_485), None);
    assert_eq!(CalendarDate::from_julian_day(-1_930_999).unwrap().to_calendar_date(), (-9999, 1, 1));
    let later = CalendarDate::from_calendar_date(2020, 12, 31).unwrap().checked_add_days(2).unwrap();
    assert_eq!(later.to_calendar_date(), (2021, 1, 2));
    let earlier = d.checked_add_days(-1).unwrap();
    assert_eq!(earlier.to_calendar_date(), (1999, 12, 31));
    assert_eq!(later.days_since(&d), 7_672);
    let max = CalendarDate::from_calendar_date(9999, 12, 31).unwrap();
    assert_eq!(max.checked_add_days(1), None);
    assert_eq!(max.checked_add_days(0), Some(max));
}

#[test]
fn cs_error_message() {
    assert_eq!(
        CSErr::ConversionOverflowed.message(),
        "The CSDate value was out of range for the conversion and overflowed."
    );
}
