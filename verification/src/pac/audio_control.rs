//! `CONTROL` register of the audio streamer peripheral.
//!
//! Bit layout: bit 0 `ENABLE`, bit 1 `MODE` (0 = mono, 1 = stereo),
//! bit 2 `QUEUE_FULL`, bit 3 `QUEUE_ALMOST_FULL`, bit 4 `QUEUE_ALMOST_EMPTY`,
//! bit 5 `QUEUE_EMPTY`.  The queue flags are read-only; only `ENABLE` and
//! `MODE` are writable.

use vstd::prelude::*;

verus! {

/// Reader for the `CONTROL` register.
pub struct R {
    bits: u8,
}

impl R {
    /// The raw word this reader was built from.
    pub closed spec fn spec_bits(&self) -> u8 {
        self.bits
    }

    /// Wrap a raw word read from the register.
    pub fn new(bits: u8) -> (r: R)
        ensures
            r.spec_bits() == bits,
    {
        R { bits }
    }

    /// The raw register word.
    pub fn bits(&self) -> (b: u8)
        ensures
            b == self.spec_bits(),
    {
        self.bits
    }

    /// Bit 0 - Enable the peripheral (and link it to the DAC).
    pub fn enable(&self) -> (b: bool)
        ensures
            b == (self.spec_bits() & 1 != 0),
    {
        self.bits & 1 != 0
    }

    /// Bit 1 - Operating mode of the peripheral (mono = 0, stereo = 1).
    pub fn mode(&self) -> (b: bool)
        ensures
            b == ((self.spec_bits() >> 1) & 1 != 0),
    {
        (self.bits >> 1) & 1 != 0
    }

    /// Bit 2 - Whether the internal stream queue is full.
    pub fn queue_full(&self) -> (b: bool)
        ensures
            b == ((self.spec_bits() >> 2) & 1 != 0),
    {
        (self.bits >> 2) & 1 != 0
    }

    /// Bit 3 - Whether the internal stream queue is almost full.
    pub fn queue_almost_full(&self) -> (b: bool)
        ensures
            b == ((self.spec_bits() >> 3) & 1 != 0),
    {
        (self.bits >> 3) & 1 != 0
    }

    /// Bit 4 - Whether the internal stream queue is almost empty.
    pub fn queue_almost_empty(&self) -> (b: bool)
        ensures
            b == ((self.spec_bits() >> 4) & 1 != 0),
    {
        (self.bits >> 4) & 1 != 0
    }

    /// Bit 5 - Whether the internal stream queue is empty.
    pub fn queue_empty(&self) -> (b: bool)
        ensures
            b == ((self.spec_bits() >> 5) & 1 != 0),
    {
        (self.bits >> 5) & 1 != 0
    }
}

/// Writer for the `CONTROL` register.  Field updates take the writer by
/// value and hand it back, so they chain like the builder they replace.
pub struct W {
    bits: u8,
}

impl W {
    /// The word this writer will put on the bus.
    pub closed spec fn spec_bits(&self) -> u8 {
        self.bits
    }

    /// A writer with every bit clear.
    pub fn zero() -> (w: W)
        ensures
            w.spec_bits() == 0,
    {
        W { bits: 0 }
    }

    /// The raw word built so far.
    pub fn bits(&self) -> (b: u8)
        ensures
            b == self.spec_bits(),
    {
        self.bits
    }

    /// Bit 0 - Enable the peripheral (and link it to the DAC).
    pub fn enable(self, bit: bool) -> (w: W)
        ensures
            w.spec_bits() == (self.spec_bits() & 0xfe) | (if bit { 1u8 } else { 0u8 }),
    {
        W { bits: (self.bits & 0xfe) | (if bit { 1u8 } else { 0u8 }) }
    }

    /// Bit 1 - Operating mode of the peripheral (mono = 0, stereo = 1).
    pub fn mode(self, bit: bool) -> (w: W)
        ensures
            w.spec_bits() == (self.spec_bits() & 0xfd) | (if bit { 2u8 } else { 0u8 }),
    {
        W { bits: (self.bits & 0xfd) | (if bit { 2u8 } else { 0u8 }) }
    }
}

/// Marker naming the `CONTROL` register layout.
pub struct ControlSpec;

} // verus!
