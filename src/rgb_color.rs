//! The [`RgbColor`] struct.
use vstd::prelude::*;

use crate::clarion_color::ClarionColor;
use crate::codec::{blue_of, green_of, lemma_color_round_trip, red_of, unpack_color};

verus! {

/// A 24-bit color of the RGB color space: one 8-bit integer for each channel.
#[derive(Clone, Copy, Debug, PartialEq, Eq, Structural, Hash, PartialOrd, Ord)]
pub struct RgbColor {
    /// The red channel, from 0 (no red) to 255 (fully red).
    pub red: u8,
    /// The green channel, from 0 (no green) to 255 (fully green).
    pub green: u8,
    /// The blue channel, from 0 (no blue) to 255 (fully blue).
    pub blue: u8,
}

impl From<ClarionColor> for RgbColor {
    /// Unpacks the channels of `color`.
    fn from(color: ClarionColor) -> (r: Self)
        ensures
            r.red == red_of(color@),
            r.green == green_of(color@),
            r.blue == blue_of(color@),
    {
        let packed = color.color();
        proof {
            lemma_color_round_trip(packed as int);
        }
        unpack_color(packed)
    }
}

impl vstd::std_specs::convert::FromSpecImpl<ClarionColor> for RgbColor {
    open spec fn obeys_from_spec() -> bool {
        true
    }

    open spec fn from_spec(v: ClarionColor) -> RgbColor {
        RgbColor { red: red_of(v@) as u8, green: green_of(v@) as u8, blue: blue_of(v@) as u8 }
    }
}

} // verus!
