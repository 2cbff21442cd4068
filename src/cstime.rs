//! The [`CSTime`] struct.
use vstd::prelude::*;

use crate::codec::{
    decode_time, decoded_time, encode_time, encoded_time, lemma_time_offset_round_trip,
};
use crate::time_of_day::TimeOfDay;

verus! {

/// A time of day as the number of centiseconds from midnight, with the offset
/// open to callers. Any `i32` is accepted; it is reduced modulo one day when
/// it is decoded.
#[derive(Clone, Copy, Debug, PartialEq, Eq, Structural, Hash, PartialOrd, Ord)]
pub struct CSTime {
    /// The number of centiseconds from midnight.
    pub time: i32,
}

impl CSTime {
    /// The time `time` centiseconds after midnight, kept as given.
    pub fn new(time: i32) -> (r: CSTime)
        ensures
            r.time == time,
    {
        CSTime { time }
    }
}

impl From<TimeOfDay> for CSTime {
    /// Whole centiseconds from midnight to `time`.
    fn from(time: TimeOfDay) -> (r: Self)
        ensures
            r.time == encoded_time(time@),
    {
        CSTime { time: encode_time(time) }
    }
}

impl vstd::std_specs::convert::FromSpecImpl<TimeOfDay> for CSTime {
    open spec fn obeys_from_spec() -> bool {
        true
    }

    open spec fn from_spec(v: TimeOfDay) -> CSTime {
        CSTime { time: encoded_time(v@) as i32 }
    }
}

impl From<CSTime> for TimeOfDay {
    /// The time of day that `value` encodes, counted around the clock.
    fn from(value: CSTime) -> (r: Self)
        ensures
            r@ == decoded_time(value.time as int),
    {
        let r = decode_time(value.time);
        proof {
            lemma_time_offset_round_trip(value.time as int);
            TimeOfDay::lemma_spec_from_components(decoded_time(value.time as int));
            TimeOfDay::lemma_view_injective(
                r,
                TimeOfDay::spec_from_components(decoded_time(value.time as int)),
            );
        }
        r
    }
}

impl vstd::std_specs::convert::FromSpecImpl<CSTime> for TimeOfDay {
    open spec fn obeys_from_spec() -> bool {
        true
    }

    open spec fn from_spec(v: CSTime) -> TimeOfDay {
        TimeOfDay::spec_from_components(decoded_time(v.time as int))
    }
}

} // verus!
