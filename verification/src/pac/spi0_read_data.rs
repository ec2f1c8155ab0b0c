//! `READ_DATA` register of the SPI peripheral: the last received byte.

use vstd::prelude::*;

verus! {

/// Reader for the `READ_DATA` register.
pub struct R {
    bits: u8,
}

impl R {
    /// The raw word this reader was built from.
    pub closed spec fn spec_bits(&self) -> u8 {
        self.bits
    }

    /// Wrap a raw word read from the register.
    pub fn new(bits: u8) -> (r: R)
        ensures
            r.spec_bits() == bits,
    {
        R { bits }
    }

    /// The raw register word.
    pub fn bits(&self) -> (b: u8)
        ensures
            b == self.spec_bits(),
    {
        self.bits
    }

    /// Bits 0:7 - Last received byte.
    pub fn data(&self) -> (b: u8)
        ensures
            b == self.spec_bits(),
    {
        self.bits
    }
}

/// Marker naming the `READ_DATA` register layout.
pub struct ReadDataSpec;

} // verus!
