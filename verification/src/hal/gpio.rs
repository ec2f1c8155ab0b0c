//! GPIO peripheral: typed pins, pin ownership, and the take-once table.
//!
//! The [`Gpio`] value owns every pin of the chip once; each `take_*`
//! method hands a pin (or a bank of pins) out exactly once.  Together
//! with the masked-write register protocol this is what lets independent
//! drivers own independent pins without a lock.

use vstd::prelude::*;

verus! {

use crate::hal::gpio_pins::Btn1;
use crate::hal::gpio_pins::Btn2;
use crate::hal::gpio_pins::Btn3;
use crate::hal::gpio_pins::Btn4;
use crate::hal::gpio_pins::Btn5;
use crate::hal::gpio_pins::Btn6;
use crate::hal::gpio_pins::Led0;
use crate::hal::gpio_pins::Led1;
use crate::hal::gpio_pins::Led2;
use crate::hal::gpio_pins::Led3;
use crate::hal::gpio_pins::Led4;
use crate::hal::gpio_pins::Led5;
use crate::hal::gpio_pins::Led6;
use crate::hal::gpio_pins::Led7;
use crate::hal::gpio_pins::SpiOledClk;
use crate::hal::gpio_pins::SpiOledCs;
use crate::hal::gpio_pins::SpiOledDc;
use crate::hal::gpio_pins::SpiOledMosi;
use crate::hal::gpio_pins::SpiOledRes;
use crate::hal::gpio_pins::SpiSdClk;
use crate::hal::gpio_pins::SpiSdCs;
use crate::hal::gpio_pins::SpiSdMiso;
use crate::hal::gpio_pins::SpiSdMosi;
use crate::hal::typesafe::Sealed;

/// A pin knows which line of its bank register it owns.
pub trait BankPinIds: Sealed {
    /// The bit position of this pin in its bank register.
    spec fn spec_bank_id() -> u8;
}

/// A pin that can drive its line.
pub trait OutputCapablePin: BankPinIds {
    /// The level currently driven on the line.
    spec fn spec_output(&self) -> bool;

    /// Drive the line high.  The register write cannot fail.
    fn set_high(&mut self) -> (r: Result<(), ()>)
        ensures
            r is Ok,
            final(self).spec_output(),
    ;

    /// Drive the line low.  The register write cannot fail.
    fn set_low(&mut self) -> (r: Result<(), ()>)
        ensures
            r is Ok,
            !final(self).spec_output(),
    ;
}

/// A pin whose line can be read.
pub trait InputCapablePin: BankPinIds {
    /// The level of the physical line.
    spec fn spec_input(&self) -> bool;

    /// Whether the line is high.  The register read cannot fail.
    fn is_high(&self) -> (r: Result<bool, ()>)
        ensures
            r == Result::<bool, ()>::Ok(self.spec_input()),
    ;

    /// Whether the line is low.  The register read cannot fail.
    fn is_low(&self) -> (r: Result<bool, ()>)
        ensures
            r == Result::<bool, ()>::Ok(!self.spec_input()),
    ;
}

/// An output pin that can read back the level it drives.
pub trait StatefulOutputCapablePin: OutputCapablePin {
    /// Whether the line is driven high.  The read cannot fail.
    fn is_set_high(&self) -> (r: Result<bool, ()>)
        ensures
            r == Result::<bool, ()>::Ok(self.spec_output()),
    ;

    /// Whether the line is driven low.  The read cannot fail.
    fn is_set_low(&self) -> (r: Result<bool, ()>)
        ensures
            r == Result::<bool, ()>::Ok(!self.spec_output()),
    ;
}

/// Wrap a raw pin in its [`Pin`] handle, in the direction it is made
/// for.
pub trait IntoPin<I> where I: BankPinIds {
    /// Wrap the pin.
    fn into_pin(self) -> Pin<I>;
}

/// Marker for the pins of the LED bank.
pub trait LedBankPin: Sealed + OutputCapablePin + StatefulOutputCapablePin {}

/// Marker for the pins of the button bank.
pub trait BtnBankPin: Sealed + InputCapablePin {}

/// Marker for the output pins of the SD-card SPI bank.
pub trait SpiSdcardOutputBankPin: Sealed + OutputCapablePin + StatefulOutputCapablePin {}

/// Marker for the input pins of the SD-card SPI bank.
pub trait SpiSdcardInputBankPin: Sealed + InputCapablePin {}

/// Marker for the pins of the display SPI bank.
pub trait SpiOledBankPin: Sealed + OutputCapablePin + StatefulOutputCapablePin {}

/// A pin that is never wired up: writes vanish and reads return the
/// level it was built with.
#[derive(Clone, Copy)]
pub struct NeverPin(pub bool);

impl Sealed for NeverPin {}

impl BankPinIds for NeverPin {
    open spec fn spec_bank_id() -> u8 {
        0
    }
}

impl OutputCapablePin for NeverPin {
    open spec fn spec_output(&self) -> bool {
        self.0
    }

    fn set_high(&mut self) -> (r: Result<(), ()>) {
        self.0 = true;
        Ok(())
    }

    fn set_low(&mut self) -> (r: Result<(), ()>) {
        self.0 = false;
        Ok(())
    }
}

impl InputCapablePin for NeverPin {
    open spec fn spec_input(&self) -> bool {
        self.0
    }

    fn is_high(&self) -> (r: Result<bool, ()>) {
        Ok(self.0)
    }

    fn is_low(&self) -> (r: Result<bool, ()>) {
        Ok(!self.0)
    }
}

/// A typed handle on one pin.
pub struct Pin<I> where I: BankPinIds {
    pin: I,
}

impl<I> Pin<I> where I: BankPinIds {
    /// The raw pin behind the handle.
    pub closed spec fn spec_pin(&self) -> I {
        self.pin
    }

    /// Unwrap the handle and hand the raw pin back.
    pub fn bring_down(self) -> (p: I)
        ensures
            p == self.spec_pin(),
    {
        self.pin
    }
}

impl<I> Pin<I> where I: OutputCapablePin {
    /// Wrap an output-capable pin.
    pub fn new_output(pin: I) -> (p: Pin<I>)
        ensures
            p.spec_pin() == pin,
    {
        Pin { pin }
    }

    /// Drive the line high.
    pub fn set_high(&mut self) -> (r: Result<(), ()>)
        ensures
            r is Ok,
            final(self).spec_pin().spec_output(),
    {
        self.pin.set_high()
    }

    /// Drive the line low.
    pub fn set_low(&mut self) -> (r: Result<(), ()>)
        ensures
            r is Ok,
            !final(self).spec_pin().spec_output(),
    {
        self.pin.set_low()
    }
}

impl<I> Pin<I> where I: InputCapablePin {
    /// Wrap an input-capable pin.
    pub fn new_input(pin: I) -> (p: Pin<I>)
        ensures
            p.spec_pin() == pin,
    {
        Pin { pin }
    }

    /// Whether the line is high.
    pub fn is_high(&self) -> (r: Result<bool, ()>)
        ensures
            r == Result::<bool, ()>::Ok(self.spec_pin().spec_input()),
    {
        self.pin.is_high()
    }

    /// Whether the line is low.
    pub fn is_low(&self) -> (r: Result<bool, ()>)
        ensures
            r == Result::<bool, ()>::Ok(!self.spec_pin().spec_input()),
    {
        self.pin.is_low()
    }
}

impl<I> Pin<I> where I: StatefulOutputCapablePin {
    /// Whether the line is driven high.
    pub fn is_set_high(&self) -> (r: Result<bool, ()>)
        ensures
            r == Result::<bool, ()>::Ok(self.spec_pin().spec_output()),
    {
        self.pin.is_set_high()
    }

    /// Whether the line is driven low.
    pub fn is_set_low(&self) -> (r: Result<bool, ()>)
        ensures
            r == Result::<bool, ()>::Ok(!self.spec_pin().spec_output()),
    {
        self.pin.is_set_low()
    }
}

/// The three data pins of one SPI role.
pub struct SpiPins<MOSI, CLK, MISO> where
    MOSI: OutputCapablePin,
    CLK: OutputCapablePin,
    MISO: InputCapablePin,
 {
    /// Master-out line.
    pub mosi: MOSI,
    /// Clock line.
    pub clk: CLK,
    /// Master-in line.
    pub miso: MISO,
}

/// The SPI pins wired to the SD card.
pub type SpiSdPins = SpiPins<SpiSdMosi, SpiSdClk, SpiSdMiso>;

/// The SPI pins wired to the display, which has no MISO line.
pub type SpiOledPins = SpiPins<SpiOledMosi, SpiOledClk, NeverPin>;

/// Every pin of the display link, chip select and control lines
/// included.
pub type OledPins = (SpiOledCs, SpiOledMosi, SpiOledClk, SpiOledDc, SpiOledRes);

impl SpiSdPins {
    /// Decompose into individual pins.
    pub fn into_pins(self) -> (r: (SpiSdMosi, SpiSdClk, SpiSdMiso))
        ensures
            r.0 == self.mosi,
            r.1 == self.clk,
            r.2 == self.miso,
    {
        (self.mosi, self.clk, self.miso)
    }

    /// Compose from individual pins.
    pub fn from_pins(mosi: SpiSdMosi, clk: SpiSdClk, miso: SpiSdMiso) -> (r: SpiSdPins)
        ensures
            r.mosi == mosi,
            r.clk == clk,
            r.miso == miso,
    {
        SpiPins { mosi, clk, miso }
    }

    /// Set the MOSI and clock outputs in one masked register write,
    /// which is cheaper than two separate pin writes.
    pub fn set_outputs(&mut self, mosi_high: bool, clk_high: bool) -> (r: Result<(), ()>)
        ensures
            r is Ok,
            final(self).mosi.spec_output() == mosi_high,
            final(self).clk.spec_output() == clk_high,
            final(self).miso == old(self).miso,
    {
        let _ = if mosi_high {
            self.mosi.set_high()
        } else {
            self.mosi.set_low()
        };
        let _ = if clk_high {
            self.clk.set_high()
        } else {
            self.clk.set_low()
        };
        Ok(())
    }

    /// Read the MISO input and the MOSI and clock outputs in one
    /// register read.
    pub fn read_states(&self) -> (r: Result<(bool, bool, bool), ()>)
        ensures
            r == Result::<(bool, bool, bool), ()>::Ok(
                (self.miso.spec_input(), self.mosi.spec_output(), self.clk.spec_output()),
            ),
    {
        let miso_state = match self.miso.is_high() {
            Ok(b) => b,
            Err(_) => false,
        };
        let mosi_state = match self.mosi.is_set_high() {
            Ok(b) => b,
            Err(_) => false,
        };
        let clk_state = match self.clk.is_set_high() {
            Ok(b) => b,
            Err(_) => false,
        };
        Ok((miso_state, mosi_state, clk_state))
    }
}

/// The pin table of the GPIO peripheral: every pin exists here exactly
/// once until its owner takes it.
pub struct Gpio {
    led0: Option<Led0>,
    led1: Option<Led1>,
    led2: Option<Led2>,
    led3: Option<Led3>,
    led4: Option<Led4>,
    led5: Option<Led5>,
    led6: Option<Led6>,
    led7: Option<Led7>,
    btn1: Option<Btn1>,
    btn2: Option<Btn2>,
    btn3: Option<Btn3>,
    btn4: Option<Btn4>,
    btn5: Option<Btn5>,
    btn6: Option<Btn6>,
    spi_sd: Option<SpiSdPins>,
    spi_sd_cs: Option<SpiSdCs>,
    oled: Option<OledPins>,
}

impl Gpio {
    /// Whether the LED bank is still held here.
    pub closed spec fn spec_has_leds(&self) -> bool {
        self.led0 is Some && self.led1 is Some && self.led2 is Some && self.led3 is Some
            && self.led4 is Some && self.led5 is Some && self.led6 is Some && self.led7 is Some
    }

    /// Whether the button bank is still held here.
    pub closed spec fn spec_has_btns(&self) -> bool {
        self.btn1 is Some && self.btn2 is Some && self.btn3 is Some && self.btn4 is Some
            && self.btn5 is Some && self.btn6 is Some
    }

    /// Whether the SD-card SPI pins are still held here.
    pub closed spec fn spec_has_spi_sd(&self) -> bool {
        self.spi_sd is Some
    }

    /// Whether the SD-card chip-select pin is still held here.
    pub closed spec fn spec_has_spi_sd_cs(&self) -> bool {
        self.spi_sd_cs is Some
    }

    /// Whether the display pins are still held here.
    pub closed spec fn spec_has_oled(&self) -> bool {
        self.oled is Some
    }

    /// The pin table as it leaves reset: every pin present, every
    /// output low.
    pub(crate) fn new() -> (g: Gpio)
        ensures
            g.spec_has_leds(),
            g.spec_has_btns(),
            g.spec_has_spi_sd(),
            g.spec_has_spi_sd_cs(),
            g.spec_has_oled(),
    {
        Gpio {
            led0: Some(Led0::new()),
            led1: Some(Led1::new()),
            led2: Some(Led2::new()),
            led3: Some(Led3::new()),
            led4: Some(Led4::new()),
            led5: Some(Led5::new()),
            led6: Some(Led6::new()),
            led7: Some(Led7::new()),
            btn1: Some(Btn1::new()),
            btn2: Some(Btn2::new()),
            btn3: Some(Btn3::new()),
            btn4: Some(Btn4::new()),
            btn5: Some(Btn5::new()),
            btn6: Some(Btn6::new()),
            spi_sd: Some(
                SpiPins { mosi: SpiSdMosi::new(), clk: SpiSdClk::new(), miso: SpiSdMiso::new() },
            ),
            spi_sd_cs: Some(SpiSdCs::new()),
            oled: Some(
                (
                    SpiOledCs::new(),
                    SpiOledMosi::new(),
                    SpiOledClk::new(),
                    SpiOledDc::new(),
                    SpiOledRes::new(),
                ),
            ),
        }
    }

    /// Take the display pins; they come out exactly once.
    pub fn take_oled(&mut self) -> (r: Option<OledPins>)
        ensures
            r is Some <==> old(self).spec_has_oled(),
            !final(self).spec_has_oled(),
            final(self).spec_has_leds() == old(self).spec_has_leds(),
            final(self).spec_has_btns() == old(self).spec_has_btns(),
            final(self).spec_has_spi_sd() == old(self).spec_has_spi_sd(),
            final(self).spec_has_spi_sd_cs() == old(self).spec_has_spi_sd_cs(),
    {
        self.oled.take()
    }

    /// Take the SD-card SPI pins; they come out exactly once.
    pub fn take_spi_sd(&mut self) -> (r: Option<SpiSdPins>)
        ensures
            r is Some <==> old(self).spec_has_spi_sd(),
            !final(self).spec_has_spi_sd(),
            final(self).spec_has_leds() == old(self).spec_has_leds(),
            final(self).spec_has_btns() == old(self).spec_has_btns(),
            final(self).spec_has_spi_sd_cs() == old(self).spec_has_spi_sd_cs(),
            final(self).spec_has_oled() == old(self).spec_has_oled(),
    {
        self.spi_sd.take()
    }

    /// Take the SD-card chip-select pin; it comes out exactly once.
    pub fn take_spi_sd_cs(&mut self) -> (r: Option<SpiSdCs>)
        ensures
            r is Some <==> old(self).spec_has_spi_sd_cs(),
            !final(self).spec_has_spi_sd_cs(),
            final(self).spec_has_leds() == old(self).spec_has_leds(),
            final(self).spec_has_btns() == old(self).spec_has_btns(),
            final(self).spec_has_spi_sd() == old(self).spec_has_spi_sd(),
            final(self).spec_has_oled() == old(self).spec_has_oled(),
    {
        self.spi_sd_cs.take()
    }

    /// Take the whole button bank at once, or nothing if any button was
    /// already taken.
    pub fn take_all_btns(&mut self) -> (r: Option<(Btn1, Btn2, Btn3, Btn4, Btn5, Btn6)>)
        ensures
            r is Some <==> old(self).spec_has_btns(),
            !old(self).spec_has_btns() ==> final(self).spec_has_btns() == old(
                self,
            ).spec_has_btns(),
            old(self).spec_has_btns() ==> !final(self).spec_has_btns(),
            final(self).spec_has_leds() == old(self).spec_has_leds(),
            final(self).spec_has_spi_sd() == old(self).spec_has_spi_sd(),
            final(self).spec_has_spi_sd_cs() == old(self).spec_has_spi_sd_cs(),
            final(self).spec_has_oled() == old(self).spec_has_oled(),
    {
        if self.btn1.is_some() && self.btn2.is_some() && self.btn3.is_some()
            && self.btn4.is_some() && self.btn5.is_some() && self.btn6.is_some() {
            Some(
                (
                    self.btn1.take().unwrap(),
                    self.btn2.take().unwrap(),
                    self.btn3.take().unwrap(),
                    self.btn4.take().unwrap(),
                    self.btn5.take().unwrap(),
                    self.btn6.take().unwrap(),
                ),
            )
        } else {
            None
        }
    }

    /// Take the whole LED bank at once, or nothing if any LED was
    /// already taken.
    pub fn take_all_leds(&mut self) -> (r: Option<
        (Led0, Led1, Led2, Led3, Led4, Led5, Led6, Led7),
    >)
        ensures
            r is Some <==> old(self).spec_has_leds(),
            !old(self).spec_has_leds() ==> final(self).spec_has_leds() == old(
                self,
            ).spec_has_leds(),
            old(self).spec_has_leds() ==> !final(self).spec_has_leds(),
            final(self).spec_has_btns() == old(self).spec_has_btns(),
            final(self).spec_has_spi_sd() == old(self).spec_has_spi_sd(),
            final(self).spec_has_spi_sd_cs() == old(self).spec_has_spi_sd_cs(),
            final(self).spec_has_oled() == old(self).spec_has_oled(),
    {
        if self.led0.is_some() && self.led1.is_some() && self.led2.is_some()
            && self.led3.is_some() && self.led4.is_some() && self.led5.is_some()
            && self.led6.is_some() && self.led7.is_some() {
            Some(
                (
                    self.led0.take().unwrap(),
                    self.led1.take().unwrap(),
                    self.led2.take().unwrap(),
                    self.led3.take().unwrap(),
                    self.led4.take().unwrap(),
                    self.led5.take().unwrap(),
                    self.led6.take().unwrap(),
                    self.led7.take().unwrap(),
                ),
            )
        } else {
            None
        }
    }
}

} // verus!
