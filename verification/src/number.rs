//! Numbers as a document holds them: whole numbers, and reals held by the bit
//! pattern of their IEEE 754 binary64 form.

use vstd::prelude::*;

verus! {

/// The sign bit of a binary64 pattern.
pub const SIGN_BIT: u64 = 0x8000_0000_0000_0000;

/// Every bit of a binary64 pattern but the sign.
pub const MAGNITUDE_BITS: u64 = 0x7fff_ffff_ffff_ffff;

/// The magnitude of infinity: all exponent bits set, no fraction bit.
pub const INFINITY_MAGNITUDE: u64 = 0x7ff0_0000_0000_0000;

/// A numeric value of a document.
#[derive(Clone, Copy, PartialEq, Eq, Debug, Structural)]
pub enum Number {
    /// A whole number.
    Integer(i64),
    /// A real number, by its binary64 bit pattern.
    Real(u64),
}

/// A binary64 pattern without its sign.
pub open spec fn magnitude(bits: u64) -> u64 {
    bits & MAGNITUDE_BITS
}

/// Whether the sign bit of a binary64 pattern is set.
pub open spec fn sign_set(bits: u64) -> bool {
    bits & SIGN_BIT != 0
}

impl Number {
    /// Neither an infinity nor a pattern that is no number.
    pub open spec fn finite(self) -> bool {
        match self {
            Number::Integer(_) => true,
            Number::Real(bits) => magnitude(bits) < INFINITY_MAGNITUDE,
        }
    }

    /// Below zero. A negative zero and a pattern that is no number are not.
    pub open spec fn negative(self) -> bool {
        match self {
            Number::Integer(i) => i < 0,
            Number::Real(bits) => sign_set(bits) && 0 < magnitude(bits) <= INFINITY_MAGNITUDE,
        }
    }

    /// Above zero. A pattern that is no number is not.
    pub open spec fn positive(self) -> bool {
        match self {
            Number::Integer(i) => i > 0,
            Number::Real(bits) => !sign_set(bits) && 0 < magnitude(bits) <= INFINITY_MAGNITUDE,
        }
    }

    pub fn is_finite(&self) -> (r: bool)
        ensures
            r == self.finite(),
    {
        match self {
            Number::Integer(_) => true,
            Number::Real(bits) => (*bits & MAGNITUDE_BITS) < INFINITY_MAGNITUDE,
        }
    }

    pub fn is_negative(&self) -> (r: bool)
        ensures
            r == self.negative(),
    {
        match self {
            Number::Integer(i) => *i < 0,
            Number::Real(bits) => {
                let m: u64 = *bits & MAGNITUDE_BITS;
                (*bits & SIGN_BIT) != 0 && 0 < m && m <= INFINITY_MAGNITUDE
            },
        }
    }

    pub fn is_positive(&self) -> (r: bool)
        ensures
            r == self.positive(),
    {
        match self {
            Number::Integer(i) => *i > 0,
            Number::Real(bits) => {
                let m: u64 = *bits & MAGNITUDE_BITS;
                (*bits & SIGN_BIT) == 0 && 0 < m && m <= INFINITY_MAGNITUDE
            },
        }
    }
}

} // verus!
