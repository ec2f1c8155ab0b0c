//! `AUDIO_VIZ` register of the GPIO peripheral: audio visualisation takeover of the on-board LEDs.

use vstd::prelude::*;

verus! {

/// Reader for the `AUDIO_VIZ` register.
pub struct R {
    bits: u8,
}

impl R {
    /// The raw word this reader was built from.
    pub closed spec fn spec_bits(&self) -> u8 {
        self.bits
    }

    /// Wrap a raw word read from the register.
    pub fn new(bits: u8) -> (r: R)
        ensures
            r.spec_bits() == bits,
    {
        R { bits }
    }

    /// The raw register word.
    pub fn bits(&self) -> (b: u8)
        ensures
            b == self.spec_bits(),
    {
        self.bits
    }

    /// Bit 0 - Whether the LEDs follow the audio signal instead of the GPIO state.
    pub fn enable(&self) -> (b: bool)
        ensures
            b == (self.spec_bits() & 1 != 0),
    {
        self.bits & 1 != 0
    }
}

/// Writer for the `AUDIO_VIZ` register.  Field updates take the writer by value
/// and hand it back, so they chain like the builder they replace.
pub struct W {
    bits: u8,
}

impl W {
    /// The word this writer will put on the bus.
    pub closed spec fn spec_bits(&self) -> u8 {
        self.bits
    }

    /// A writer with every bit clear.
    pub fn zero() -> (w: W)
        ensures
            w.spec_bits() == 0,
    {
        W { bits: 0 }
    }

    /// The raw word built so far.
    pub fn bits(&self) -> (b: u8)
        ensures
            b == self.spec_bits(),
    {
        self.bits
    }

    /// Bit 0 - Let the LEDs follow the audio signal instead of the GPIO state.
    pub fn enable(self, bit: bool) -> (w: W)
        ensures
            w.spec_bits() == (self.spec_bits() & 0xfe) | (if bit { 1u8 } else { 0u8 }),
    {
        W { bits: (self.bits & 0xfe) | (if bit { 1u8 } else { 0u8 }) }
    }
}

/// Marker naming the `AUDIO_VIZ` register layout.
pub struct AudioVizSpec;

} // verus!
