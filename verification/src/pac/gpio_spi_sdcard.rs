//! `SPI_SDCARD` register of the GPIO peripheral: masked control of the SD-card SPI pins.

use vstd::prelude::*;

verus! {

/// Reader for the `SPI_SDCARD` register.
pub struct R {
    bits: u16,
}

impl R {
    /// The raw word this reader was built from.
    pub closed spec fn spec_bits(&self) -> u16 {
        self.bits
    }

    /// Wrap a raw word read from the register.
    pub fn new(bits: u16) -> (r: R)
        ensures
            r.spec_bits() == bits,
    {
        R { bits }
    }

    /// The raw register word.
    pub fn bits(&self) -> (b: u16)
        ensures
            b == self.spec_bits(),
    {
        self.bits
    }

    /// Bit 0 - Output level of the chip-select pin.
    pub fn cs_output(&self) -> (b: bool)
        ensures
            b == (self.spec_bits() & 1 != 0),
    {
        self.bits & 1 != 0
    }

    /// Bit 1 - Output level of the MOSI pin.
    pub fn mosi_output(&self) -> (b: bool)
        ensures
            b == ((self.spec_bits() >> 1) & 1 != 0),
    {
        (self.bits >> 1) & 1 != 0
    }

    /// Bit 2 - Output level of the clock pin.
    pub fn clk_output(&self) -> (b: bool)
        ensures
            b == ((self.spec_bits() >> 2) & 1 != 0),
    {
        (self.bits >> 2) & 1 != 0
    }

    /// Bit 3 - Input level of the MISO pin.
    pub fn miso_input(&self) -> (b: bool)
        ensures
            b == ((self.spec_bits() >> 3) & 1 != 0),
    {
        (self.bits >> 3) & 1 != 0
    }
}

/// Writer for the `SPI_SDCARD` register.  Field updates take the writer by value
/// and hand it back, so they chain like the builder they replace.
pub struct W {
    bits: u16,
}

impl W {
    /// The word this writer will put on the bus.
    pub closed spec fn spec_bits(&self) -> u16 {
        self.bits
    }

    /// A writer with every bit clear.
    pub fn zero() -> (w: W)
        ensures
            w.spec_bits() == 0,
    {
        W { bits: 0 }
    }

    /// The raw word built so far.
    pub fn bits(&self) -> (b: u16)
        ensures
            b == self.spec_bits(),
    {
        self.bits
    }

    /// Bit 0 - Output level of the chip-select pin.
    pub fn cs_output(self, bit: bool) -> (w: W)
        ensures
            w.spec_bits() == (self.spec_bits() & 0xfffe) | (if bit { 1u16 } else { 0u16 }),
    {
        W { bits: (self.bits & 0xfffe) | (if bit { 1u16 } else { 0u16 }) }
    }

    /// Bit 1 - Output level of the MOSI pin.
    pub fn mosi_output(self, bit: bool) -> (w: W)
        ensures
            w.spec_bits() == (self.spec_bits() & 0xfffd) | (if bit { 2u16 } else { 0u16 }),
    {
        W { bits: (self.bits & 0xfffd) | (if bit { 2u16 } else { 0u16 }) }
    }

    /// Bit 2 - Output level of the clock pin.
    pub fn clk_output(self, bit: bool) -> (w: W)
        ensures
            w.spec_bits() == (self.spec_bits() & 0xfffb) | (if bit { 4u16 } else { 0u16 }),
    {
        W { bits: (self.bits & 0xfffb) | (if bit { 4u16 } else { 0u16 }) }
    }

    /// Bit 8 - Write mask for the chip-select output.
    pub fn cs_mask(self, bit: bool) -> (w: W)
        ensures
            w.spec_bits() == (self.spec_bits() & 0xfeff) | (if bit { 256u16 } else { 0u16 }),
    {
        W { bits: (self.bits & 0xfeff) | (if bit { 256u16 } else { 0u16 }) }
    }

    /// Bit 9 - Write mask for the MOSI output.
    pub fn mosi_mask(self, bit: bool) -> (w: W)
        ensures
            w.spec_bits() == (self.spec_bits() & 0xfdff) | (if bit { 512u16 } else { 0u16 }),
    {
        W { bits: (self.bits & 0xfdff) | (if bit { 512u16 } else { 0u16 }) }
    }

    /// Bit 10 - Write mask for the clock output.
    pub fn clk_mask(self, bit: bool) -> (w: W)
        ensures
            w.spec_bits() == (self.spec_bits() & 0xfbff) | (if bit { 1024u16 } else { 0u16 }),
    {
        W { bits: (self.bits & 0xfbff) | (if bit { 1024u16 } else { 0u16 }) }
    }
}

/// Marker naming the `SPI_SDCARD` register layout.
pub struct SpiSdcardSpec;

} // verus!
