//! The [`TimeOfDay`] type: a wall-clock time between midnight and the next
//! midnight, with nanosecond precision.
use vstd::arithmetic::div_mod::{
    lemma_div_pos_is_pos, lemma_fundamental_div_mod_converse, lemma_mod_bound,
    lemma_multiply_divide_lt,
};
use vstd::prelude::*;

verus! {

/// Nanoseconds in one second.
pub const NANOS_PER_SECOND: u64 = 1_000_000_000;

/// Nanoseconds in one minute.
pub const NANOS_PER_MINUTE: u64 = 60_000_000_000;

/// Nanoseconds in one hour.
pub const NANOS_PER_HOUR: u64 = 3_600_000_000_000;

/// Nanoseconds in one day.
pub const NANOS_PER_DAY: u64 = 86_400_000_000_000;

/// Nanoseconds in one millisecond.
pub const NANOS_PER_MILLI: u64 = 1_000_000;

/// Hour, minute, second and nanosecond that name a time of day.
pub open spec fn is_time_of_day(v: (int, int, int, int)) -> bool {
    &&& 0 <= v.0 < 24
    &&& 0 <= v.1 < 60
    &&& 0 <= v.2 < 60
    &&& 0 <= v.3 < NANOS_PER_SECOND
}

/// Nanoseconds from midnight to the time of day with the given hour, minute,
/// second and nanosecond.
pub open spec fn nanos_of(v: (int, int, int, int)) -> int {
    v.0 * NANOS_PER_HOUR + v.1 * NANOS_PER_MINUTE + v.2 * NANOS_PER_SECOND + v.3
}

/// Hour, minute, second and nanosecond of the time of day that lies `n`
/// nanoseconds after midnight, for `n` within one day.
pub open spec fn time_of_nanos(n: int) -> (int, int, int, int) {
    (
        n / NANOS_PER_HOUR as int,
        n % NANOS_PER_HOUR as int / NANOS_PER_MINUTE as int,
        n % NANOS_PER_MINUTE as int / NANOS_PER_SECOND as int,
        n % NANOS_PER_SECOND as int,
    )
}

/// The components of every nanosecond count within one day name a time of day.
pub proof fn lemma_time_of_nanos_valid(n: int)
    requires
        0 <= n < NANOS_PER_DAY,
    ensures
        is_time_of_day(time_of_nanos(n)),
{
    let (h, m, s) = (NANOS_PER_HOUR as int, NANOS_PER_MINUTE as int, NANOS_PER_SECOND as int);
    lemma_div_pos_is_pos(n, h);
    lemma_multiply_divide_lt(n, h, 24);
    lemma_mod_bound(n, h);
    lemma_div_pos_is_pos(n % h, m);
    lemma_multiply_divide_lt(n % h, m, 60);
    lemma_mod_bound(n, m);
    lemma_div_pos_is_pos(n % m, s);
    lemma_multiply_divide_lt(n % m, s, 60);
    lemma_mod_bound(n, s);
}

/// A time of day is recovered from its nanosecond count.
pub proof fn lemma_time_of_nanos_of(v: (int, int, int, int))
    requires
        is_time_of_day(v),
    ensures
        0 <= nanos_of(v) < NANOS_PER_DAY,
        time_of_nanos(nanos_of(v)) == v,
{
    let (h, m, s) = (NANOS_PER_HOUR as int, NANOS_PER_MINUTE as int, NANOS_PER_SECOND as int);
    let n = nanos_of(v);
    let below_second = v.3;
    let below_minute = v.2 * s + v.3;
    let below_hour = v.1 * m + below_minute;
    assert(0 <= below_minute < m) by (nonlinear_arith)
        requires
            0 <= v.2 < 60,
            0 <= v.3 < s,
            s == 1_000_000_000,
            m == 60_000_000_000,
            below_minute == v.2 * s + v.3,
    ;
    assert(0 <= below_hour < h) by (nonlinear_arith)
        requires
            0 <= v.1 < 60,
            0 <= below_minute < m,
            m == 60_000_000_000,
            h == 3_600_000_000_000,
            below_hour == v.1 * m + below_minute,
    ;
    assert(0 <= n < NANOS_PER_DAY) by (nonlinear_arith)
        requires
            0 <= v.0 < 24,
            0 <= below_hour < h,
            h == 3_600_000_000_000,
            n == v.0 * h + below_hour,
    ;
    lemma_fundamental_div_mod_converse(n, h, v.0, below_hour);
    lemma_fundamental_div_mod_converse(below_hour, m, v.1, below_minute);
    lemma_fundamental_div_mod_converse(n, m, v.0 * 60 + v.1, below_minute);
    lemma_fundamental_div_mod_converse(below_minute, s, v.2, below_second);
    lemma_fundamental_div_mod_converse(n, s, (v.0 * 60 + v.1) * 60 + v.2, below_second);
}

/// Relies on `time::Time::MIDNIGHT`, `time::Duration::milliseconds`, the addition of a
/// `time::Duration` to a `time::Time` (which wraps around midnight in either
/// direction) and `time::Time::as_hms_nano`.
#[verifier::external_body]
fn midnight_plus_milliseconds(ms: i64) -> (r: (u8, u8, u8, u32))
    ensures
        (r.0 as int, r.1 as int, r.2 as int, r.3 as int) == time_of_nanos(
            (ms * NANOS_PER_MILLI) % (NANOS_PER_DAY as int),
        ),
{
    (time::Time::MIDNIGHT + time::Duration::milliseconds(ms)).as_hms_nano()
}

/// Relies on `time::Time::from_hms_nano`, the subtraction of two `time::Time`s and
/// `time::Duration::whole_milliseconds`: a time is accepted exactly when its
/// components are in range, and the whole milliseconds since midnight are then
/// returned.
#[verifier::external_body]
fn milliseconds_since_midnight(hour: u8, minute: u8, second: u8, nanosecond: u32) -> (r: Option<
    i128,
>)
    ensures
        r == (if is_time_of_day((hour as int, minute as int, second as int, nanosecond as int)) {
            Some(
                (nanos_of((hour as int, minute as int, second as int, nanosecond as int))
                    / NANOS_PER_MILLI as int) as i128,
            )
        } else {
            None
        }),
{
    match time::Time::from_hms_nano(hour, minute, second, nanosecond) {
        Ok(t) => Some((t - time::Time::MIDNIGHT).whole_milliseconds()),
        Err(_) => None,
    }
}

/// A time of day between midnight (inclusive) and the next midnight
/// (exclusive), with nanosecond precision.
#[derive(Clone, Copy, Debug, PartialEq, Eq, Structural, Hash, PartialOrd, Ord)]
pub struct TimeOfDay {
    hour: u8,
    minute: u8,
    second: u8,
    nanosecond: u32,
}

impl View for TimeOfDay {
    type V = (int, int, int, int);

    /// Hour, minute, second and nanosecond.
    closed spec fn view(&self) -> (int, int, int, int) {
        (self.hour as int, self.minute as int, self.second as int, self.nanosecond as int)
    }
}

impl TimeOfDay {
    #[verifier::type_invariant]
    spec fn inv(self) -> bool {
        is_time_of_day(self@)
    }

    /// Two times of day with the same components are the same time of day.
    pub proof fn lemma_view_injective(a: TimeOfDay, b: TimeOfDay)
        ensures
            a@ == b@ <==> a == b,
    {
    }

    /// The time of day with the components `v`, for components that name one.
    pub closed spec fn spec_from_components(v: (int, int, int, int)) -> TimeOfDay {
        TimeOfDay { hour: v.0 as u8, minute: v.1 as u8, second: v.2 as u8, nanosecond: v.3 as u32 }
    }

    /// The time of day named by valid components has those components.
    pub proof fn lemma_spec_from_components(v: (int, int, int, int))
        requires
            is_time_of_day(v),
        ensures
            Self::spec_from_components(v)@ == v,
    {
    }

    /// The time of day with the given hour (0 to 23), minute (0 to 59), second
    /// (0 to 59) and nanosecond (below one billion), if all are in range.
    pub fn from_hms_nano(hour: u8, minute: u8, second: u8, nanosecond: u32) -> (r: Option<
        TimeOfDay,
    >)
        ensures
            r.is_some() <==> is_time_of_day(
                (hour as int, minute as int, second as int, nanosecond as int),
            ),
            r matches Some(t) ==> t@ == (hour as int, minute as int, second as int, nanosecond as int),
    {
        if hour < 24 && minute < 60 && second < 60 && (nanosecond as u64) < NANOS_PER_SECOND {
            Some(TimeOfDay { hour, minute, second, nanosecond })
        } else {
            None
        }
    }

    /// The time of day `ms` milliseconds after midnight, counted around the clock:
    /// a negative count goes back from midnight, and whole days fall away.
    pub fn midnight_plus_milliseconds(ms: i64) -> (r: TimeOfDay)
        ensures
            r@ == time_of_nanos((ms * NANOS_PER_MILLI) % (NANOS_PER_DAY as int)),
    {
        let (hour, minute, second, nanosecond) = midnight_plus_milliseconds(ms);
        proof {
            lemma_time_of_nanos_valid((ms * NANOS_PER_MILLI) % (NANOS_PER_DAY as int));
        }
        TimeOfDay { hour, minute, second, nanosecond }
    }

    /// Whole milliseconds from midnight to this time of day.
    pub fn whole_milliseconds_since_midnight(&self) -> (r: i64)
        ensures
            r == nanos_of(self@) / NANOS_PER_MILLI as int,
            0 <= r < NANOS_PER_DAY / NANOS_PER_MILLI,
    {
        proof {
            use_type_invariant(self);
            lemma_time_of_nanos_of(self@);
            lemma_div_pos_is_pos(nanos_of(self@), NANOS_PER_MILLI as int);
            lemma_multiply_divide_lt(nanos_of(self@), NANOS_PER_MILLI as int, 86_400_000);
        }
        let ms = milliseconds_since_midnight(self.hour, self.minute, self.second, self.nanosecond);
        ms.unwrap() as i64
    }

    /// The hour, from 0 to 23.
    pub fn hour(&self) -> (r: u8)
        ensures
            r == self@.0,
    {
        self.hour
    }

    /// The minute within the hour, from 0 to 59.
    pub fn minute(&self) -> (r: u8)
        ensures
            r == self@.1,
    {
        self.minute
    }

    /// The second within the minute, from 0 to 59.
    pub fn second(&self) -> (r: u8)
        ensures
            r == self@.2,
    {
        self.second
    }

    /// The nanosecond within the second, below one billion.
    pub fn nanosecond(&self) -> (r: u32)
        ensures
            r == self@.3,
    {
        self.nanosecond
    }
}

} // verus!
