//! `WRITE_DATA` register of the SPI peripheral: the byte to transmit; writing starts the transfer.

use vstd::prelude::*;

verus! {

/// Writer for the `WRITE_DATA` register.  Field updates take the writer by value
/// and hand it back, so they chain like the builder they replace.
pub struct W {
    bits: u8,
}

impl W {
    /// The word this writer will put on the bus.
    pub closed spec fn spec_bits(&self) -> u8 {
        self.bits
    }

    /// A writer with every bit clear.
    pub fn zero() -> (w: W)
        ensures
            w.spec_bits() == 0,
    {
        W { bits: 0 }
    }

    /// The raw word built so far.
    pub fn bits(&self) -> (b: u8)
        ensures
            b == self.spec_bits(),
    {
        self.bits
    }

    /// Bits 0:7 - Byte to transmit.
    pub fn data(self, value: u8) -> (w: W)
        ensures
            w.spec_bits() == value,
    {
        W { bits: value }
    }
}

/// Marker naming the `WRITE_DATA` register layout.
pub struct WriteDataSpec;

} // verus!
