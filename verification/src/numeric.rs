//! Real-valued data carried as IEEE 754 bit patterns.
//!
//! The solver works in double precision, but this layer never performs
//! floating-point arithmetic of its own: every objective weight, bound,
//! coefficient and solution value merely passes through it unchanged. A
//! [`Real`] therefore holds the 64-bit pattern of the `f64` it stands for,
//! and the few comparisons the layer does make (is a coefficient zero, is a
//! tolerance inside its range) are stated exactly over that pattern, using
//! the ordering the IEEE 754 encoding gives:
//!
//! - `+0.0` has pattern `0`, `-0.0` has pattern `1 << 63`; no other pattern
//!   compares equal to zero.
//! - For patterns with the sign bit clear, the pattern order is the value
//!   order; `0x7FF0_0000_0000_0000` is positive infinity and every larger
//!   sign-clear pattern is a NaN, which compares false against everything.
//! - A pattern with the sign bit set names a negative value whose magnitude
//!   is the remaining 63 bits; magnitudes above the infinity pattern are
//!   again NaNs.

use vstd::prelude::*;

verus! {

/// Bit pattern of `-0.0`: the sign bit alone.
pub const SIGN_BIT: u64 = 0x8000_0000_0000_0000;

/// Bit pattern of `1.0`.
pub const ONE_PATTERN: u64 = 0x3FF0_0000_0000_0000;

/// Bit pattern of positive infinity; the largest sign-clear non-NaN pattern.
pub const INFINITY_PATTERN: u64 = 0x7FF0_0000_0000_0000;

/// A double-precision value carried by its IEEE 754 bit pattern.
#[derive(Clone, Copy, Debug, PartialEq, Eq, Structural)]
pub struct Real {
    bits: u64,
}

impl Real {
    /// The bit pattern this value carries.
    pub closed spec fn spec_bits(self) -> u64 {
        self.bits
    }

    /// True of `+0.0` and `-0.0`: exactly the values that compare equal to
    /// zero in IEEE 754 arithmetic.
    pub open spec fn spec_is_zero(self) -> bool {
        self.spec_bits() == 0 || self.spec_bits() == SIGN_BIT
    }

    /// True exactly when the value compares `< 0.0`: the sign bit is set and
    /// the magnitude names a nonzero finite value or infinity. `-0.0` and
    /// NaNs compare false.
    pub open spec fn spec_lt_zero(self) -> bool {
        self.spec_bits() > SIGN_BIT && self.spec_bits() - SIGN_BIT <= INFINITY_PATTERN
    }

    /// True exactly when the value compares `< 1.0`: either a negative value
    /// (including `-0.0`), or a sign-clear pattern below the pattern of
    /// `1.0`. Sign-clear patterns order as the values they name, and every
    /// NaN pattern lies above the pattern of `1.0`, so both compare false.
    pub open spec fn spec_lt_one(self) -> bool {
        (self.spec_bits() >= SIGN_BIT && self.spec_bits() - SIGN_BIT <= INFINITY_PATTERN)
            || self.spec_bits() < ONE_PATTERN
    }

    /// True exactly when `0.0 <= value <= 1.0` holds in IEEE 754 arithmetic:
    /// a sign-clear pattern at most the pattern of `1.0`, or `-0.0` (which
    /// compares equal to zero). NaNs fail both comparisons.
    pub open spec fn spec_in_unit_interval(self) -> bool {
        self.spec_bits() <= ONE_PATTERN || self.spec_bits() == SIGN_BIT
    }

    /// Wrap a bit pattern obtained from `f64::to_bits`.
    pub fn from_bits(bits: u64) -> (r: Real)
        ensures
            r.spec_bits() == bits,
    {
        Real { bits }
    }

    /// The bit pattern, for `f64::from_bits` at the foreign boundary.
    pub fn bits(self) -> (r: u64)
        ensures
            r == self.spec_bits(),
    {
        self.bits
    }

    /// Whether the value compares equal to zero.
    pub fn is_zero(self) -> (r: bool)
        ensures
            r == self.spec_is_zero(),
    {
        self.bits == 0 || self.bits == SIGN_BIT
    }

    /// Whether the value compares `< 0.0`.
    pub fn lt_zero(self) -> (r: bool)
        ensures
            r == self.spec_lt_zero(),
    {
        self.bits > SIGN_BIT && self.bits - SIGN_BIT <= INFINITY_PATTERN
    }

    /// Whether the value compares `< 1.0`.
    pub fn lt_one(self) -> (r: bool)
        ensures
            r == self.spec_lt_one(),
    {
        (self.bits >= SIGN_BIT && self.bits - SIGN_BIT <= INFINITY_PATTERN)
            || self.bits < ONE_PATTERN
    }

    /// Whether `0.0 <= value <= 1.0` holds.
    pub fn in_unit_interval(self) -> (r: bool)
        ensures
            r == self.spec_in_unit_interval(),
    {
        self.bits <= ONE_PATTERN || self.bits == SIGN_BIT
    }
}

} // verus!
