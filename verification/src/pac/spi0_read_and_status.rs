//! `READ_AND_STATUS` register of the SPI peripheral: received byte and transfer status in one read.

use vstd::prelude::*;

verus! {

/// Reader for the `READ_AND_STATUS` register.
pub struct R {
    bits: u16,
}

impl R {
    /// The raw word this reader was built from.
    pub closed spec fn spec_bits(&self) -> u16 {
        self.bits
    }

    /// Wrap a raw word read from the register.
    pub fn new(bits: u16) -> (r: R)
        ensures
            r.spec_bits() == bits,
    {
        R { bits }
    }

    /// The raw register word.
    pub fn bits(&self) -> (b: u16)
        ensures
            b == self.spec_bits(),
    {
        self.bits
    }

    /// Bits 0:7 - Last received byte.
    pub fn data(&self) -> (b: u8)
        ensures
            b == (self.spec_bits() & 0xff) as u8,
    {
        (self.bits & 0xff) as u8
    }

    /// Bit 8 - Whether a received byte is ready.
    pub fn ready(&self) -> (b: bool)
        ensures
            b == ((self.spec_bits() >> 8) & 1 != 0),
    {
        (self.bits >> 8) & 1 != 0
    }

    /// Bit 9 - Whether a transfer is in progress.
    pub fn busy(&self) -> (b: bool)
        ensures
            b == ((self.spec_bits() >> 9) & 1 != 0),
    {
        (self.bits >> 9) & 1 != 0
    }
}

/// Marker naming the `READ_AND_STATUS` register layout.
pub struct ReadAndStatusSpec;

} // verus!
