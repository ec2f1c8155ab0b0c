//! Register block of the GPIO peripheral.

use vstd::prelude::*;

verus! {

use crate::pac::gpio_btn;
use crate::pac::gpio_led;
use crate::pac::gpio_spi_oled;
use crate::pac::gpio_spi_sdcard;

/// Register file of the GPIO peripheral.
///
/// Output registers obey the masked-write protocol: the upper byte of a
/// written word selects which output bits take effect, so concurrent owners
/// of different pins never clobber each other.  Input lines (buttons, MISO)
/// are driven from outside the chip; setters model the physical lines.
pub struct RegisterBlock {
    led_output: u8,
    btn_input: u8,
    spi_sdcard_out: u8,
    spi_sdcard_miso: bool,
    spi_oled_out: u8,
}

impl RegisterBlock {
    /// Output levels of the eight LED lines.
    pub closed spec fn spec_led_output(&self) -> u8 {
        self.led_output
    }

    /// Input levels of the eight button lines.
    pub closed spec fn spec_btn_input(&self) -> u8 {
        self.btn_input
    }

    /// Output levels of the SD-card SPI pins (bits 0..3).
    pub closed spec fn spec_spi_sdcard_out(&self) -> u8 {
        self.spi_sdcard_out
    }

    /// Input level of the SD-card MISO pin.
    pub closed spec fn spec_spi_sdcard_miso(&self) -> bool {
        self.spi_sdcard_miso
    }

    /// Output levels of the display SPI pins (bits 0..5).
    pub closed spec fn spec_spi_oled_out(&self) -> u8 {
        self.spi_oled_out
    }

    /// The register file in its reset state.
    pub fn new() -> (rb: RegisterBlock)
        ensures
            rb.spec_led_output() == 0,
            rb.spec_btn_input() == 0,
            rb.spec_spi_sdcard_out() == 0,
            !rb.spec_spi_sdcard_miso(),
            rb.spec_spi_oled_out() == 0,
    {
        RegisterBlock {
            led_output: 0,
            btn_input: 0,
            spi_sdcard_out: 0,
            spi_sdcard_miso: false,
            spi_oled_out: 0,
        }
    }

    /// Read the `LED` register.
    pub fn led(&self) -> (r: gpio_led::R)
        ensures
            r.spec_bits() == self.spec_led_output() as u16,
    {
        gpio_led::R::new(self.led_output as u16)
    }

    /// Write the `LED` register: only output bits whose mask bit is set
    /// take effect.
    pub fn write_led(&mut self, w: gpio_led::W)
        ensures
            final(self).spec_led_output() == (old(self).spec_led_output()
                & !(((w.spec_bits() >> 8) & 0xff) as u8))
                | ((w.spec_bits() & 0xff) as u8 & ((w.spec_bits() >> 8) & 0xff) as u8),
            final(self).spec_btn_input() == old(self).spec_btn_input(),
            final(self).spec_spi_sdcard_out() == old(self).spec_spi_sdcard_out(),
            final(self).spec_spi_sdcard_miso() == old(self).spec_spi_sdcard_miso(),
            final(self).spec_spi_oled_out() == old(self).spec_spi_oled_out(),
    {
        let bits = w.bits();
        let mask: u8 = ((bits >> 8) & 0xff) as u8;
        let out: u8 = (bits & 0xff) as u8;
        self.led_output = (self.led_output & !mask) | (out & mask);
    }

    /// Read the `BTN` register.
    pub fn btn(&self) -> (r: gpio_btn::R)
        ensures
            r.spec_bits() == self.spec_btn_input(),
    {
        gpio_btn::R::new(self.btn_input)
    }

    /// Drive the physical button lines; inputs come from outside the chip.
    pub fn set_btn_inputs(&mut self, bits: u8)
        ensures
            final(self).spec_btn_input() == bits,
            final(self).spec_led_output() == old(self).spec_led_output(),
            final(self).spec_spi_sdcard_out() == old(self).spec_spi_sdcard_out(),
            final(self).spec_spi_sdcard_miso() == old(self).spec_spi_sdcard_miso(),
            final(self).spec_spi_oled_out() == old(self).spec_spi_oled_out(),
    {
        self.btn_input = bits;
    }

    /// Read the `SPI_SDCARD` register: the three output levels plus the
    /// MISO input level on bit 3.
    pub fn spi_sdcard(&self) -> (r: gpio_spi_sdcard::R)
        ensures
            r.spec_bits() == ((self.spec_spi_sdcard_out() & 0x07)
                | (if self.spec_spi_sdcard_miso() { 0x08u8 } else { 0u8 })) as u16,
    {
        let low: u8 = (self.spi_sdcard_out & 0x07)
            | (if self.spi_sdcard_miso { 0x08u8 } else { 0u8 });
        gpio_spi_sdcard::R::new(low as u16)
    }

    /// Write the `SPI_SDCARD` register: only output bits whose mask bit is
    /// set take effect, and the MISO input bit never does.
    pub fn write_spi_sdcard(&mut self, w: gpio_spi_sdcard::W)
        ensures
            final(self).spec_spi_sdcard_out() == ((old(self).spec_spi_sdcard_out()
                & !(((w.spec_bits() >> 8) & 0xff) as u8))
                | ((w.spec_bits() & 0xff) as u8 & ((w.spec_bits() >> 8) & 0xff) as u8)) & 0x07,
            final(self).spec_spi_sdcard_miso() == old(self).spec_spi_sdcard_miso(),
            final(self).spec_led_output() == old(self).spec_led_output(),
            final(self).spec_btn_input() == old(self).spec_btn_input(),
            final(self).spec_spi_oled_out() == old(self).spec_spi_oled_out(),
    {
        let bits = w.bits();
        let mask: u8 = ((bits >> 8) & 0xff) as u8;
        let out: u8 = (bits & 0xff) as u8;
        self.spi_sdcard_out = ((self.spi_sdcard_out & !mask) | (out & mask)) & 0x07;
    }

    /// Drive the physical MISO line; the input comes from the SD card.
    pub fn set_miso_input(&mut self, level: bool)
        ensures
            final(self).spec_spi_sdcard_miso() == level,
            final(self).spec_spi_sdcard_out() == old(self).spec_spi_sdcard_out(),
            final(self).spec_led_output() == old(self).spec_led_output(),
            final(self).spec_btn_input() == old(self).spec_btn_input(),
            final(self).spec_spi_oled_out() == old(self).spec_spi_oled_out(),
    {
        self.spi_sdcard_miso = level;
    }

    /// Read the `SPI_OLED` register.
    pub fn spi_oled(&self) -> (r: gpio_spi_oled::R)
        ensures
            r.spec_bits() == self.spec_spi_oled_out() as u16,
    {
        gpio_spi_oled::R::new(self.spi_oled_out as u16)
    }

    /// Write the `SPI_OLED` register: only output bits whose mask bit is
    /// set take effect.
    pub fn write_spi_oled(&mut self, w: gpio_spi_oled::W)
        ensures
            final(self).spec_spi_oled_out() == ((old(self).spec_spi_oled_out()
                & !(((w.spec_bits() >> 8) & 0xff) as u8))
                | ((w.spec_bits() & 0xff) as u8 & ((w.spec_bits() >> 8) & 0xff) as u8)) & 0x1f,
            final(self).spec_led_output() == old(self).spec_led_output(),
            final(self).spec_btn_input() == old(self).spec_btn_input(),
            final(self).spec_spi_sdcard_out() == old(self).spec_spi_sdcard_out(),
            final(self).spec_spi_sdcard_miso() == old(self).spec_spi_sdcard_miso(),
    {
        let bits = w.bits();
        let mask: u8 = ((bits >> 8) & 0xff) as u8;
        let out: u8 = (bits & 0xff) as u8;
        self.spi_oled_out = ((self.spi_oled_out & !mask) | (out & mask)) & 0x1f;
    }
}

} // verus!
