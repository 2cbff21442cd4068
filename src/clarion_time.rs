//! The [`ClarionTime`] struct.
use vstd::prelude::*;

use crate::codec::{
    decode_time, decoded_time, encode_time, encoded_time, lemma_time_offset_round_trip,
    CENTIS_PER_DAY,
};
use crate::time_of_day::TimeOfDay;

verus! {

/// A time of day in the Clarion format: the number of centiseconds from
/// midnight, kept within `0..8_640_000` (one day).
#[derive(Clone, Copy, Debug, PartialEq, Eq, Structural, Hash, PartialOrd, Ord)]
pub struct ClarionTime {
    time: i32,
}

impl View for ClarionTime {
    type V = int;

    /// The centisecond offset.
    closed spec fn view(&self) -> int {
        self.time as int
    }
}

impl ClarionTime {
    #[verifier::type_invariant]
    spec fn inv(self) -> bool {
        0 <= self.time < CENTIS_PER_DAY
    }

    /// The Clarion time `time` centiseconds after midnight, reduced modulo one
    /// day into `0..8_640_000`; a negative count goes back from midnight.
    pub fn new(time: i32) -> (r: ClarionTime)
        ensures
            r@ == (time as int) % (CENTIS_PER_DAY as int),
    {
        let rem = time % CENTIS_PER_DAY;
        let time = if rem < 0 {
            rem + CENTIS_PER_DAY
        } else {
            rem
        };
        ClarionTime { time }
    }

    /// The number of centiseconds from midnight, in `0..8_640_000`.
    pub fn time(&self) -> (r: i32)
        ensures
            r == self@,
            0 <= r < CENTIS_PER_DAY,
    {
        proof {
            use_type_invariant(self);
        }
        self.time
    }

    /// The Clarion time of `time`: whole centiseconds since midnight.
    pub fn from_time_of_day(time: TimeOfDay) -> (r: ClarionTime)
        ensures
            r@ == encoded_time(time@),
    {
        ClarionTime { time: encode_time(time) }
    }

    /// The time of day that this Clarion time encodes.
    pub fn to_time_of_day(&self) -> (r: TimeOfDay)
        ensures
            r@ == decoded_time(self@),
    {
        decode_time(self.time)
    }
}

impl From<TimeOfDay> for ClarionTime {
    /// The Clarion time of `time`: whole centiseconds since midnight.
    fn from(time: TimeOfDay) -> (r: Self)
        ensures
            r@ == encoded_time(time@),
    {
        ClarionTime::from_time_of_day(time)
    }
}

impl vstd::std_specs::convert::FromSpecImpl<TimeOfDay> for ClarionTime {
    open spec fn obeys_from_spec() -> bool {
        true
    }

    closed spec fn from_spec(v: TimeOfDay) -> ClarionTime {
        ClarionTime { time: encoded_time(v@) as i32 }
    }
}

impl From<ClarionTime> for TimeOfDay {
    /// The time of day that `value` encodes.
    fn from(value: ClarionTime) -> (r: Self)
        ensures
            r@ == decoded_time(value@),
    {
        let r = value.to_time_of_day();
        proof {
            lemma_time_offset_round_trip(value@);
            TimeOfDay::lemma_spec_from_components(decoded_time(value@));
            TimeOfDay::lemma_view_injective(r, TimeOfDay::spec_from_components(decoded_time(value@)));
        }
        r
    }
}

impl vstd::std_specs::convert::FromSpecImpl<ClarionTime> for TimeOfDay {
    open spec fn obeys_from_spec() -> bool {
        true
    }

    open spec fn from_spec(v: ClarionTime) -> TimeOfDay {
        TimeOfDay::spec_from_components(decoded_time(v@))
    }
}

} // verus!
