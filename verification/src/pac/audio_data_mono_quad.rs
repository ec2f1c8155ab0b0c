//! `DATA_MONO_QUAD` register of the audio streamer peripheral: four mono samples in one write.

use vstd::prelude::*;

verus! {

/// Writer for the `DATA_MONO_QUAD` register.  Field updates take the writer by value
/// and hand it back, so they chain like the builder they replace.
pub struct W {
    bits: u32,
}

impl W {
    /// The word this writer will put on the bus.
    pub closed spec fn spec_bits(&self) -> u32 {
        self.bits
    }

    /// A writer with every bit clear.
    pub fn zero() -> (w: W)
        ensures
            w.spec_bits() == 0,
    {
        W { bits: 0 }
    }

    /// The raw word built so far.
    pub fn bits(&self) -> (b: u32)
        ensures
            b == self.spec_bits(),
    {
        self.bits
    }

    /// Bits 0:7 - First mono sample.
    pub fn sample0(self, value: u8) -> (w: W)
        ensures
            w.spec_bits() == (self.spec_bits() & 0xffffff00) | (value as u32),
    {
        W { bits: (self.bits & 0xffffff00) | (value as u32) }
    }

    /// Bits 8:15 - Second mono sample.
    pub fn sample1(self, value: u8) -> (w: W)
        ensures
            w.spec_bits() == (self.spec_bits() & 0xffff00ff) | ((value as u32) << 8),
    {
        W { bits: (self.bits & 0xffff00ff) | ((value as u32) << 8) }
    }

    /// Bits 16:23 - Third mono sample.
    pub fn sample2(self, value: u8) -> (w: W)
        ensures
            w.spec_bits() == (self.spec_bits() & 0xff00ffff) | ((value as u32) << 16),
    {
        W { bits: (self.bits & 0xff00ffff) | ((value as u32) << 16) }
    }

    /// Bits 24:31 - Fourth mono sample.
    pub fn sample3(self, value: u8) -> (w: W)
        ensures
            w.spec_bits() == (self.spec_bits() & 0x00ffffff) | ((value as u32) << 24),
    {
        W { bits: (self.bits & 0x00ffffff) | ((value as u32) << 24) }
    }
}

/// Marker naming the `DATA_MONO_QUAD` register layout.
pub struct DataMonoQuadSpec;

} // verus!
