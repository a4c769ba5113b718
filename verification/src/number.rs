//! Numbers as a payload carries them. A floating-point number is held by its
//! bit pattern, so that it can be carried and ordered without arithmetic.

use vstd::prelude::*;

verus! {

/// Bit pattern of the binary64 number 100.
pub const BITS_OF_HUNDRED: u64 = 0x4059_0000_0000_0000;

/// Bit pattern of the binary64 positive infinity.
pub const BITS_OF_INFINITY: u64 = 0x7ff0_0000_0000_0000;

/// A number of a payload: an unsigned or a signed integer, or a binary64
/// floating-point number given by its bit pattern.
#[derive(Clone, Copy, Debug, PartialEq, Eq, Structural)]
pub enum Number {
    Unsigned(u64),
    Signed(i64),
    Float(u64),
}

impl Number {
    /// Whether a number is greater than 100. Among the binary64 patterns
    /// with a clear sign bit the numbers grow with their patterns, up to
    /// positive infinity; above it stand the patterns that are no number,
    /// and a set sign bit gives a number that is not positive.
    pub open spec fn above_hundred(self) -> bool {
        match self {
            Number::Unsigned(v) => v > 100,
            Number::Signed(v) => v > 100,
            Number::Float(bits) => BITS_OF_HUNDRED < bits <= BITS_OF_INFINITY,
        }
    }

    /// Whether this number is greater than 100.
    pub fn exceeds_hundred(&self) -> (above: bool)
        ensures
            above == self.above_hundred(),
    {
        match self {
            Number::Unsigned(v) => *v > 100,
            Number::Signed(v) => *v > 100,
            Number::Float(bits) => BITS_OF_HUNDRED < *bits && *bits <= BITS_OF_INFINITY,
        }
    }
}

} // verus!
