//! Real numbers that the library carries but never computes with.

use vstd::prelude::*;

verus! {

/// A double-precision number, held as its IEEE 754 bit pattern.
///
/// The library stores, copies and hands on such numbers; it never does
/// arithmetic on them.
#[derive(Clone, Copy, Debug, PartialEq, Eq, Structural, Hash)]
pub struct Real {
    pub bits: u64,
}

impl Real {
    /// The number whose bit pattern is `bits`.
    pub fn from_bits(bits: u64) -> (r: Real)
        ensures
            r.bits == bits,
    {
        Real { bits }
    }

    /// The bit pattern of the number.
    pub fn to_bits(&self) -> (bits: u64)
        ensures
            bits == self.bits,
    {
        self.bits
    }

    /// Positive zero.
    pub fn zero() -> (r: Real)
        ensures
            r.bits == 0,
    {
        Real { bits: 0 }
    }
}

} // verus!
