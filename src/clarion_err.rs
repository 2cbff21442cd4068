//! The [`ClarionErr`] enum.
use vstd::prelude::*;

verus! {

/// Ways in which a conversion of this library fails.
#[derive(Clone, Copy, Debug, PartialEq, Eq, Structural, Hash, PartialOrd, Ord)]
pub enum ClarionErr {
    /// Decoding a date offset would leave the range of representable dates.
    ConversionOverflowed,
    /// A constructor was given a value outside its legal range.
    OutOfRange,
}

impl ClarionErr {
    /// A sentence that describes the error.
    pub fn message(&self) -> (r: &'static str)
        ensures
            *self == ClarionErr::ConversionOverflowed ==> r@
                == "The ClarionDate value was out of range for the conversion and overflowed."@,
            *self == ClarionErr::OutOfRange ==> r@
                == "The parameter was out of range for the constructor."@,
    {
        match self {
            ClarionErr::ConversionOverflowed => {
                "The ClarionDate value was out of range for the conversion and overflowed."
            },
            ClarionErr::OutOfRange => "The parameter was out of range for the constructor.",
        }
    }
}

} // verus!
