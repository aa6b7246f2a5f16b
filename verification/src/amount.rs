//! Monetary amounts.

use vstd::prelude::*;

verus! {

/// Bit pattern of positive infinity in IEEE 754 binary64.
pub const POSITIVE_INFINITY_BITS: u64 = 0x7FF0_0000_0000_0000;

/// Bit pattern of negative zero in IEEE 754 binary64.
pub const NEGATIVE_ZERO_BITS: u64 = 0x8000_0000_0000_0000;

/// A monetary amount, carried as the bit pattern of the IEEE 754 binary64
/// number the ledger stores, so that a value passes through the library
/// without being rounded.
#[derive(Clone, Copy, Debug, PartialEq, Eq, Structural)]
pub struct Amount {
    pub bits: u64,
}

impl Amount {
    /// The number is greater than zero: its sign bit is clear, it is not
    /// zero and it is not a NaN. Positive infinity counts.
    pub open spec fn positive(self) -> bool {
        0 < self.bits <= POSITIVE_INFINITY_BITS
    }

    /// The number equals zero, whichever sign the zero carries.
    pub open spec fn null(self) -> bool {
        self.bits == 0 || self.bits == NEGATIVE_ZERO_BITS
    }

    /// The amount with the given bit pattern.
    pub fn from_bits(bits: u64) -> (amount: Amount)
        ensures
            amount.bits == bits,
    {
        Amount { bits }
    }

    /// The bit pattern of the amount.
    pub fn to_bits(self) -> (bits: u64)
        ensures
            bits == self.bits,
    {
        self.bits
    }

    /// Positive zero.
    pub fn zero() -> (amount: Amount)
        ensures
            amount.bits == 0,
    {
        Amount { bits: 0 }
    }

    /// Whether the number is greater than zero.
    #[verifier::when_used_as_spec(positive)]
    pub fn is_positive(self) -> (yes: bool)
        ensures
            yes == self.positive(),
    {
        0 < self.bits && self.bits <= POSITIVE_INFINITY_BITS
    }

    /// Whether the number equals zero.
    #[verifier::when_used_as_spec(null)]
    pub fn is_zero(self) -> (yes: bool)
        ensures
            yes == self.null(),
    {
        self.bits == 0 || self.bits == NEGATIVE_ZERO_BITS
    }
}

} // verus!
