//! `DATA_MONO_SINGLE` register of the audio streamer peripheral: one mono sample and its write id.

use vstd::prelude::*;

verus! {

/// Writer for the `DATA_MONO_SINGLE` register.  Field updates take the writer by value
/// and hand it back, so they chain like the builder they replace.
pub struct W {
    bits: u16,
}

impl W {
    /// The word this writer will put on the bus.
    pub closed spec fn spec_bits(&self) -> u16 {
        self.bits
    }

    /// A writer with every bit clear.
    pub fn zero() -> (w: W)
        ensures
            w.spec_bits() == 0,
    {
        W { bits: 0 }
    }

    /// The raw word built so far.
    pub fn bits(&self) -> (b: u16)
        ensures
            b == self.spec_bits(),
    {
        self.bits
    }

    /// Bits 0:7 - Mono channel audio sample.
    pub fn sample0(self, value: u8) -> (w: W)
        ensures
            w.spec_bits() == (self.spec_bits() & 0xff00) | (value as u16),
    {
        W { bits: (self.bits & 0xff00) | (value as u16) }
    }

    /// Bits 8:15 - Write id for the sample; two consecutive writes bearing the same id count as one sample.
    pub fn wid(self, value: u8) -> (w: W)
        ensures
            w.spec_bits() == (self.spec_bits() & 0x00ff) | ((value as u16) << 8),
    {
        W { bits: (self.bits & 0x00ff) | ((value as u16) << 8) }
    }
}

/// Marker naming the `DATA_MONO_SINGLE` register layout.
pub struct DataMonoSingleSpec;

} // verus!
