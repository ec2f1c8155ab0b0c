//! `TRANSFER` register of the display peripheral: one byte pushed over the display link.

use vstd::prelude::*;

verus! {

/// Writer for the `TRANSFER` register.  Field updates take the writer by value
/// and hand it back, so they chain like the builder they replace.
pub struct W {
    bits: u16,
}

impl W {
    /// The word this writer will put on the bus.
    pub closed spec fn spec_bits(&self) -> u16 {
        self.bits
    }

    /// A writer with every bit clear.
    pub fn zero() -> (w: W)
        ensures
            w.spec_bits() == 0,
    {
        W { bits: 0 }
    }

    /// The raw word built so far.
    pub fn bits(&self) -> (b: u16)
        ensures
            b == self.spec_bits(),
    {
        self.bits
    }

    /// Bits 0:7 - Byte to transfer.
    pub fn byte(self, value: u8) -> (w: W)
        ensures
            w.spec_bits() == (self.spec_bits() & 0xff00) | (value as u16),
    {
        W { bits: (self.bits & 0xff00) | (value as u16) }
    }

    /// Bit 8 - Transfer type (command = 0, data = 1).
    pub fn type_(self, bit: bool) -> (w: W)
        ensures
            w.spec_bits() == (self.spec_bits() & 0xfeff) | (if bit { 256u16 } else { 0u16 }),
    {
        W { bits: (self.bits & 0xfeff) | (if bit { 256u16 } else { 0u16 }) }
    }
}

/// Marker naming the `TRANSFER` register layout.
pub struct TransferSpec;

} // verus!
