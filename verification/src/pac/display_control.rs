//! `CONTROL` register of the display peripheral: hardware framebuffer switches.

use vstd::prelude::*;

verus! {

/// Writer for the `CONTROL` register.  Field updates take the writer by value
/// and hand it back, so they chain like the builder they replace.
pub struct W {
    bits: u8,
}

impl W {
    /// The word this writer will put on the bus.
    pub closed spec fn spec_bits(&self) -> u8 {
        self.bits
    }

    /// A writer with every bit clear.
    pub fn zero() -> (w: W)
        ensures
            w.spec_bits() == 0,
    {
        W { bits: 0 }
    }

    /// The raw word built so far.
    pub fn bits(&self) -> (b: u8)
        ensures
            b == self.spec_bits(),
    {
        self.bits
    }

    /// Bit 0 - Enable the hardware framebuffer.
    pub fn enable_hwfb(self, bit: bool) -> (w: W)
        ensures
            w.spec_bits() == (self.spec_bits() & 0xfe) | (if bit { 1u8 } else { 0u8 }),
    {
        W { bits: (self.bits & 0xfe) | (if bit { 1u8 } else { 0u8 }) }
    }

    /// Bit 1 - Clear the hardware framebuffer.
    pub fn clear_hw(self, bit: bool) -> (w: W)
        ensures
            w.spec_bits() == (self.spec_bits() & 0xfd) | (if bit { 2u8 } else { 0u8 }),
    {
        W { bits: (self.bits & 0xfd) | (if bit { 2u8 } else { 0u8 }) }
    }
}

/// Marker naming the `CONTROL` register layout.
pub struct ControlSpec;

} // verus!
