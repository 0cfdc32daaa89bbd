//! Real-valued sampling parameters, carried as the bit pattern of an
//! IEEE 754 double-precision number: one sign bit, eleven exponent bits,
//! fifty-two fraction bits.

use vstd::prelude::*;

verus! {

/// The sign bit; alone it is the pattern of negative zero.
pub const SIGN_BIT: u64 = 0x8000_0000_0000_0000;

/// The pattern with sign bit clear, exponent bits all set and fraction
/// zero: positive infinity. Every pattern whose magnitude lies above it is
/// not a number.
pub const INFINITY_BITS: u64 = 0x7ff0_0000_0000_0000;

/// The pattern of the number two.
pub const TWO_BITS: u64 = 0x4000_0000_0000_0000;

/// A double-precision number, held by its bit pattern.
#[derive(Clone, Copy, Debug, PartialEq, Eq, Hash)]
pub struct Number {
    pub bits: u64,
}

/// The pattern without its sign bit. Among patterns that are numbers, a
/// larger magnitude pattern is a larger absolute value.
pub open spec fn magnitude_bits(bits: u64) -> int {
    if bits >= SIGN_BIT {
        bits - SIGN_BIT
    } else {
        bits as int
    }
}

/// The pattern stands for no number.
pub open spec fn is_nan(bits: u64) -> bool {
    magnitude_bits(bits) > INFINITY_BITS
}

/// The number lies between minus two and two, bounds included.
pub open spec fn within_two_of_zero(bits: u64) -> bool {
    magnitude_bits(bits) <= TWO_BITS
}

/// The number lies between zero and two, bounds included. Negative zero
/// equals zero and is inside.
pub open spec fn between_zero_and_two(bits: u64) -> bool {
    bits <= TWO_BITS || bits == SIGN_BIT
}

impl Number {
    /// The number with the given bit pattern.
    pub fn from_bits(bits: u64) -> (r: Number)
        ensures
            r.bits == bits,
    {
        Number { bits }
    }

    /// The bit pattern.
    pub fn to_bits(&self) -> (r: u64)
        ensures
            r == self.bits,
    {
        self.bits
    }

    /// Whether the number lies in the closed interval from minus two to two.
    pub fn is_within_two_of_zero(&self) -> (r: bool)
        ensures
            r == within_two_of_zero(self.bits),
    {
        let magnitude: u64 = if self.bits >= SIGN_BIT {
            self.bits - SIGN_BIT
        } else {
            self.bits
        };
        magnitude <= TWO_BITS
    }

    /// Whether the number lies in the closed interval from zero to two.
    pub fn is_between_zero_and_two(&self) -> (r: bool)
        ensures
            r == between_zero_and_two(self.bits),
    {
        self.bits <= TWO_BITS || self.bits == SIGN_BIT
    }
}

/// No pattern inside either interval is a not-a-number pattern, and the
/// narrower interval lies inside the wider one.
pub proof fn lemma_ranges_hold_numbers(bits: u64)
    ensures
        within_two_of_zero(bits) ==> !is_nan(bits),
        between_zero_and_two(bits) ==> within_two_of_zero(bits),
{
}

} // verus!
