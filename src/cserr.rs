//! The [`CSErr`] enum.
use vstd::prelude::*;

verus! {

/// Ways in which a conversion of a [`crate::CSDate`] fails.
#[derive(Clone, Copy, Debug, PartialEq, Eq, Structural, Hash, PartialOrd, Ord)]
pub enum CSErr {
    /// Decoding a date offset would leave the range of representable dates.
    ConversionOverflowed,
}

impl CSErr {
    /// A sentence that describes the error.
    pub fn message(&self) -> (r: &'static str)
        ensures
            r@ == "The CSDate value was out of range for the conversion and overflowed."@,
    {
        match self {
            CSErr::ConversionOverflowed => {
                "The CSDate value was out of range for the conversion and overflowed."
            },
        }
    }
}

} // verus!
