//! Hardware abstraction layer: typed drivers above the register codecs.

use vstd::prelude::*;

pub mod audio;
pub mod dac;
pub mod delay;
pub mod display;
pub mod gpio;
pub mod gpio_pins;
pub mod spi;
pub mod spidisplay;
pub mod timer;
pub mod typesafe;

verus! {

/// Every peripheral of the chip, owned exactly once.
pub struct Peripheral {
    /// The GPIO pin table.
    pub gpio: gpio::Gpio,
    /// The first SPI engine (wired to the SD card).
    pub spi0: spi::Spi0,
    /// The second SPI engine (wired to the display).
    pub spi1: spi::Spi1,
    /// The DAC behind the audio path.
    pub dac: dac::AudioDac,
}

/// Bring the chip up and hand out its peripherals, each in its reset
/// state: every GPIO pin present and low, the SPI engines idle, the DAC
/// silent.
pub fn init() -> (p: Peripheral)
    ensures
        p.gpio.spec_has_leds(),
        p.gpio.spec_has_btns(),
        p.gpio.spec_has_spi_sd(),
        p.gpio.spec_has_spi_sd_cs(),
        p.gpio.spec_has_oled(),
        p.dac.spec_left() == 0,
        p.dac.spec_right() == 0,
{
    Peripheral {
        gpio: gpio::Gpio::new(),
        spi0: spi::Spi0::new(),
        spi1: spi::Spi1::new(),
        dac: dac::AudioDac::new(),
    }
}

} // verus!
