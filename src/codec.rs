//! The three conversions of this library as free functions: days since the
//! Clarion epoch to and from a [`CalendarDate`], centiseconds since midnight to
//! and from a [`TimeOfDay`], and a packed integer to and from an [`RgbColor`].
//! The laws that relate each encoding to its decoding stand at the end.
use vstd::arithmetic::div_mod::{
    lemma_div_denominator, lemma_div_pos_is_pos, lemma_fundamental_div_mod,
    lemma_fundamental_div_mod_converse, lemma_mod_bound, lemma_mod_mod, lemma_multiply_divide_lt,
};
use vstd::prelude::*;

use crate::calendar_date::{valid_julian_day, CalendarDate, MAX_JULIAN_DAY, MIN_JULIAN_DAY};
use crate::clarion_err::ClarionErr;
use crate::rgb_color::RgbColor;
use crate::time_of_day::{
    is_time_of_day, lemma_time_of_nanos_of, lemma_time_of_nanos_valid, nanos_of, time_of_nanos,
    TimeOfDay, NANOS_PER_DAY,
};

verus! {

/// Julian day number of 28 December 1800, the day that Clarion dates count from.
pub const EPOCH_JULIAN_DAY: i32 = 2_378_858;

/// Centiseconds in one day.
pub const CENTIS_PER_DAY: i32 = 8_640_000;

/// Nanoseconds in one centisecond.
pub const NANOS_PER_CENTI: u64 = 10_000_000;

/// Largest packed color: white.
pub const MAX_PACKED_COLOR: i32 = 16_777_215;

/// Smallest packed color: black.
pub const MIN_PACKED_COLOR: i32 = 0;

// Dates.

/// The day offset that encodes the date with Julian day `jd`.
pub open spec fn encoded_date(jd: int) -> int {
    jd - EPOCH_JULIAN_DAY
}

/// The Julian day of the date that the day offset `offset` encodes.
pub open spec fn decoded_julian_day(offset: int) -> int {
    EPOCH_JULIAN_DAY + offset
}

/// Day offsets whose date is representable.
pub open spec fn date_offset_in_range(offset: int) -> bool {
    valid_julian_day(decoded_julian_day(offset))
}

/// The Clarion epoch, 28 December 1800.
pub fn clarion_epoch() -> (r: CalendarDate)
    ensures
        r@ == EPOCH_JULIAN_DAY,
{
    CalendarDate::from_julian_day(EPOCH_JULIAN_DAY).unwrap()
}

/// The date `offset` days after 28 December 1800 (before it, for a negative
/// offset); `ClarionErr::ConversionOverflowed` where that date is not
/// representable.
pub fn decode_date(offset: i32) -> (r: Result<CalendarDate, ClarionErr>)
    ensures
        r is Ok <==> date_offset_in_range(offset as int),
        r matches Ok(d) ==> d@ == decoded_julian_day(offset as int),
        r matches Err(e) ==> e == ClarionErr::ConversionOverflowed,
{
    match clarion_epoch().checked_add_days(offset) {
        Some(d) => Ok(d),
        None => Err(ClarionErr::ConversionOverflowed),
    }
}

/// The number of days from 28 December 1800 to `date`.
pub fn encode_date(date: CalendarDate) -> (r: i32)
    ensures
        r == encoded_date(date@),
{
    date.days_since(&clarion_epoch())
}

// Times of day.

/// Hour, minute, second and nanosecond of the time of day that the centisecond
/// offset `offset` encodes: the offset is counted from midnight around the
/// clock.
pub open spec fn decoded_time(offset: int) -> (int, int, int, int) {
    time_of_nanos((offset * NANOS_PER_CENTI) % (NANOS_PER_DAY as int))
}

/// The centisecond offset that encodes a time of day: whole centiseconds since
/// midnight.
pub open spec fn encoded_time(t: (int, int, int, int)) -> int {
    nanos_of(t) / NANOS_PER_CENTI as int
}

/// The time of day `offset` centiseconds after midnight, counted around the
/// clock: a negative offset goes back from midnight, and whole days fall away.
pub fn decode_time(offset: i32) -> (r: TimeOfDay)
    ensures
        r@ == decoded_time(offset as int),
{
    TimeOfDay::midnight_plus_milliseconds(offset as i64 * 10)
}

/// Whole centiseconds from midnight to `time`; a part of a centisecond is
/// dropped.
pub fn encode_time(time: TimeOfDay) -> (r: i32)
    ensures
        r == encoded_time(time@),
        0 <= r < CENTIS_PER_DAY,
{
    let ms = time.whole_milliseconds_since_midnight();
    proof {
        lemma_div_denominator(nanos_of(time@), 1_000_000, 10);
        lemma_div_pos_is_pos(ms as int, 10);
        lemma_multiply_divide_lt(ms as int, 10, CENTIS_PER_DAY as int);
    }
    (ms / 10) as i32
}

// Colors.

/// Packed values that name a color.
pub open spec fn packed_color_in_range(packed: int) -> bool {
    MIN_PACKED_COLOR <= packed <= MAX_PACKED_COLOR
}

/// The red channel of a packed color: its least significant byte.
pub open spec fn red_of(packed: int) -> int {
    packed % 256
}

/// The green channel of a packed color: its middle byte.
pub open spec fn green_of(packed: int) -> int {
    (packed / 256) % 256
}

/// The blue channel of a packed color: its most significant byte.
pub open spec fn blue_of(packed: int) -> int {
    packed / 65536
}

/// The packed value of the color with the given channels.
pub open spec fn packed_of(red: int, green: int, blue: int) -> int {
    red + green * 256 + blue * 65536
}

/// The channels of a packed color in range.
pub(crate) fn unpack_color(packed: i32) -> (r: RgbColor)
    requires
        packed_color_in_range(packed as int),
    ensures
        r.red == red_of(packed as int),
        r.green == green_of(packed as int),
        r.blue == blue_of(packed as int),
{
    proof {
        lemma_div_pos_is_pos(packed as int, 65536);
        lemma_multiply_divide_lt(packed as int, 65536, 256);
    }
    let red = (packed % 256) as u8;
    let green = (packed / 256 % 256) as u8;
    let blue = (packed / 65536) as u8;
    RgbColor { red, green, blue }
}

/// The color whose channels are packed in `packed`, red in the least
/// significant byte and blue in the most significant one;
/// `ClarionErr::OutOfRange` where `packed` lies outside `0..=16_777_215`.
pub fn decode_color(packed: i32) -> (r: Result<RgbColor, ClarionErr>)
    ensures
        r is Ok <==> packed_color_in_range(packed as int),
        r matches Ok(c) ==> c.red == red_of(packed as int) && c.green == green_of(packed as int)
            && c.blue == blue_of(packed as int),
        r matches Err(e) ==> e == ClarionErr::OutOfRange,
{
    if MIN_PACKED_COLOR <= packed && packed <= MAX_PACKED_COLOR {
        Ok(unpack_color(packed))
    } else {
        Err(ClarionErr::OutOfRange)
    }
}

/// The packed value of `color`: red in the least significant byte, green in the
/// middle byte, blue in the most significant byte.
pub fn encode_color(color: RgbColor) -> (r: i32)
    ensures
        r == packed_of(color.red as int, color.green as int, color.blue as int),
        packed_color_in_range(r as int),
{
    color.red as i32 + color.green as i32 * 256 + color.blue as i32 * 65536
}

// Laws.

/// Every representable date survives encoding and decoding: its offset decodes
/// without overflow, back to the same date.
pub proof fn lemma_date_round_trip(jd: int)
    requires
        valid_julian_day(jd),
    ensures
        date_offset_in_range(encoded_date(jd)),
        decoded_julian_day(encoded_date(jd)) == jd,
{
}

/// Every offset that decodes encodes back to itself.
pub proof fn lemma_date_offset_round_trip(offset: int)
    requires
        date_offset_in_range(offset),
    ensures
        valid_julian_day(decoded_julian_day(offset)),
        encoded_date(decoded_julian_day(offset)) == offset,
{
}

/// The smallest and largest representable dates encode to -4,309,857 and
/// 2,994,626, and exactly the offsets between them decode.
pub proof fn lemma_date_bounds(offset: int)
    ensures
        encoded_date(MIN_JULIAN_DAY as int) == -4_309_857,
        encoded_date(MAX_JULIAN_DAY as int) == 2_994_626,
        date_offset_in_range(offset) <==> -4_309_857 <= offset <= 2_994_626,
{
}

/// A time of day that falls on a whole centisecond survives encoding and
/// decoding.
pub proof fn lemma_time_round_trip(t: (int, int, int, int))
    requires
        is_time_of_day(t),
        nanos_of(t) % NANOS_PER_CENTI as int == 0,
    ensures
        decoded_time(encoded_time(t)) == t,
{
    let c = NANOS_PER_CENTI as int;
    let n = nanos_of(t);
    lemma_time_of_nanos_of(t);
    lemma_fundamental_div_mod(n, c);
    assert(encoded_time(t) * c == n);
    lemma_fundamental_div_mod_converse(n, NANOS_PER_DAY as int, 0, n);
}

/// Decoding an offset and encoding the time of day again gives the offset
/// reduced into one day: `offset` modulo 8,640,000, in `0..8_640_000`.
pub proof fn lemma_time_offset_round_trip(offset: int)
    ensures
        is_time_of_day(decoded_time(offset)),
        encoded_time(decoded_time(offset)) == offset % (CENTIS_PER_DAY as int),
{
    let c = NANOS_PER_CENTI as int;
    let d = CENTIS_PER_DAY as int;
    let q = offset / d;
    let r = offset % d;
    lemma_fundamental_div_mod(offset, d);
    lemma_mod_bound(offset, d);
    assert(offset * c == q * (NANOS_PER_DAY as int) + r * c) by (nonlinear_arith)
        requires
            offset == d * q + r,
            c == 10_000_000,
            d == 8_640_000,
    ;
    assert(0 <= r * c < NANOS_PER_DAY) by (nonlinear_arith)
        requires
            0 <= r < d,
            c == 10_000_000,
            d == 8_640_000,
    ;
    lemma_fundamental_div_mod_converse(offset * c, NANOS_PER_DAY as int, q, r * c);
    lemma_time_of_nanos_valid(r * c);
    lemma_nanos_of_time_of_nanos(r * c);
    lemma_fundamental_div_mod_converse(r * c, c, r, 0);
}

/// Splitting a nanosecond count within one day into its components and joining
/// them again gives the count back.
pub proof fn lemma_nanos_of_time_of_nanos(n: int)
    requires
        0 <= n < NANOS_PER_DAY,
    ensures
        nanos_of(time_of_nanos(n)) == n,
{
    let h = 3_600_000_000_000int;
    let m = 60_000_000_000int;
    let s = 1_000_000_000int;
    lemma_fundamental_div_mod(n, h);
    lemma_fundamental_div_mod(n % h, m);
    lemma_fundamental_div_mod(n % m, s);
    lemma_fundamental_div_mod(n, m);
    lemma_mod_bound(n, h);
    lemma_mod_bound(n, m);
    lemma_mod_mod(n, m, 60);
}

/// Every packed color in range survives decoding and encoding.
pub proof fn lemma_color_round_trip(packed: int)
    requires
        packed_color_in_range(packed),
    ensures
        0 <= red_of(packed) < 256,
        0 <= green_of(packed) < 256,
        0 <= blue_of(packed) < 256,
        packed_of(red_of(packed), green_of(packed), blue_of(packed)) == packed,
{
    lemma_fundamental_div_mod(packed, 256);
    lemma_fundamental_div_mod(packed / 256, 256);
    lemma_div_denominator(packed, 256, 256);
    lemma_mod_bound(packed, 256);
    lemma_mod_bound(packed / 256, 256);
    lemma_div_pos_is_pos(packed, 65536);
    lemma_multiply_divide_lt(packed, 65536, 256);
}

/// Every color survives encoding and decoding.
pub proof fn lemma_color_channels_round_trip(red: int, green: int, blue: int)
    requires
        0 <= red < 256,
        0 <= green < 256,
        0 <= blue < 256,
    ensures
        packed_color_in_range(packed_of(red, green, blue)),
        red_of(packed_of(red, green, blue)) == red,
        green_of(packed_of(red, green, blue)) == green,
        blue_of(packed_of(red, green, blue)) == blue,
{
    let p = packed_of(red, green, blue);
    lemma_fundamental_div_mod_converse(p, 256, green + blue * 256, red);
    lemma_fundamental_div_mod_converse(green + blue * 256, 256, blue, green);
    lemma_fundamental_div_mod_converse(p, 65536, blue, red + green * 256);
}

} // verus!
