//! The [`ClarionColor`] struct.
use vstd::prelude::*;

use crate::clarion_err::ClarionErr;
use crate::codec::{
    encode_color, packed_color_in_range, packed_of, MAX_PACKED_COLOR, MIN_PACKED_COLOR,
};
use crate::rgb_color::RgbColor;

verus! {

/// A color in the Clarion format: an integer from 0 to 16,777,215 that packs
/// red in its least significant byte, green in its middle byte and blue in its
/// most significant byte.
#[derive(Clone, Copy, Debug, PartialEq, Eq, Structural, Hash, PartialOrd, Ord)]
pub struct ClarionColor {
    color: i32,
}

impl View for ClarionColor {
    type V = int;

    /// The packed value.
    closed spec fn view(&self) -> int {
        self.color as int
    }
}

impl ClarionColor {
    /// The largest packed value, white.
    pub const MAX: i32 = MAX_PACKED_COLOR;

    /// The smallest packed value, black.
    pub const MIN: i32 = MIN_PACKED_COLOR;

    #[verifier::type_invariant]
    spec fn inv(self) -> bool {
        packed_color_in_range(self.color as int)
    }

    /// The color with packed value `color`; `ClarionErr::OutOfRange` where
    /// `color` lies outside `ClarionColor::MIN..=ClarionColor::MAX`.
    pub fn new(color: i32) -> (r: Result<ClarionColor, ClarionErr>)
        ensures
            r is Ok <==> packed_color_in_range(color as int),
            r matches Ok(c) ==> c@ == color,
            r matches Err(e) ==> e == ClarionErr::OutOfRange,
    {
        if color <= ClarionColor::MAX && color >= ClarionColor::MIN {
            Ok(ClarionColor { color })
        } else {
            Err(ClarionErr::OutOfRange)
        }
    }

    /// The packed value of this color, from `ClarionColor::MIN` (black) to
    /// `ClarionColor::MAX` (white).
    pub fn color(&self) -> (r: i32)
        ensures
            r == self@,
            packed_color_in_range(r as int),
    {
        proof {
            use_type_invariant(self);
        }
        self.color
    }
}

impl From<RgbColor> for ClarionColor {
    /// Packs the channels of `color`.
    fn from(color: RgbColor) -> (r: Self)
        ensures
            r@ == packed_of(color.red as int, color.green as int, color.blue as int),
    {
        ClarionColor { color: encode_color(color) }
    }
}

impl vstd::std_specs::convert::FromSpecImpl<RgbColor> for ClarionColor {
    open spec fn obeys_from_spec() -> bool {
        true
    }

    closed spec fn from_spec(v: RgbColor) -> ClarionColor {
        ClarionColor { color: packed_of(v.red as int, v.green as int, v.blue as int) as i32 }
    }
}

} // verus!
