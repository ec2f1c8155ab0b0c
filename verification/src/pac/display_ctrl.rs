//! `CTRL` register of the display peripheral: reset and framebuffer control.

use vstd::prelude::*;

verus! {

/// Reader for the `CTRL` register.
pub struct R {
    bits: u8,
}

impl R {
    /// The raw word this reader was built from.
    pub closed spec fn spec_bits(&self) -> u8 {
        self.bits
    }

    /// Wrap a raw word read from the register.
    pub fn new(bits: u8) -> (r: R)
        ensures
            r.spec_bits() == bits,
    {
        R { bits }
    }

    /// The raw register word.
    pub fn bits(&self) -> (b: u8)
        ensures
            b == self.spec_bits(),
    {
        self.bits
    }

    /// Bit 0 - Reset line state.
    pub fn reset(&self) -> (b: bool)
        ensures
            b == (self.spec_bits() & 1 != 0),
    {
        self.bits & 1 != 0
    }

    /// Bit 1 - Whether the hardware framebuffer is enabled.
    pub fn enable_hw_fb(&self) -> (b: bool)
        ensures
            b == ((self.spec_bits() >> 1) & 1 != 0),
    {
        (self.bits >> 1) & 1 != 0
    }
}

/// Writer for the `CTRL` register.  Field updates take the writer by value
/// and hand it back, so they chain like the builder they replace.
pub struct W {
    bits: u8,
}

impl W {
    /// The word this writer will put on the bus.
    pub closed spec fn spec_bits(&self) -> u8 {
        self.bits
    }

    /// A writer with every bit clear.
    pub fn zero() -> (w: W)
        ensures
            w.spec_bits() == 0,
    {
        W { bits: 0 }
    }

    /// The raw word built so far.
    pub fn bits(&self) -> (b: u8)
        ensures
            b == self.spec_bits(),
    {
        self.bits
    }

    /// Bit 0 - Drive the reset line.
    pub fn reset(self, bit: bool) -> (w: W)
        ensures
            w.spec_bits() == (self.spec_bits() & 0xfe) | (if bit { 1u8 } else { 0u8 }),
    {
        W { bits: (self.bits & 0xfe) | (if bit { 1u8 } else { 0u8 }) }
    }

    /// Bit 1 - Enable the hardware framebuffer.
    pub fn enable_hw_fb(self, bit: bool) -> (w: W)
        ensures
            w.spec_bits() == (self.spec_bits() & 0xfd) | (if bit { 2u8 } else { 0u8 }),
    {
        W { bits: (self.bits & 0xfd) | (if bit { 2u8 } else { 0u8 }) }
    }

    /// Bit 2 - Clear the hardware framebuffer.
    pub fn clear_hw_fb(self, bit: bool) -> (w: W)
        ensures
            w.spec_bits() == (self.spec_bits() & 0xfb) | (if bit { 4u8 } else { 0u8 }),
    {
        W { bits: (self.bits & 0xfb) | (if bit { 4u8 } else { 0u8 }) }
    }
}

/// Marker naming the `CTRL` register layout.
pub struct CtrlSpec;

} // verus!
