//! GPIO pin bank: the typed pins behind the GPIO peripheral.
//!
//! Each pin type owns exactly one line of one masked GPIO register, so a
//! pin's level is private state of its owner: the masked-write protocol
//! of the register file (see [`crate::pac::gpio`]) keeps every other bit
//! untouched.  Output pins carry the level they drive; input pins carry
//! the level of the physical line, which [`drive`](Btn1::drive) stands
//! in for on a machine without the board.

use vstd::prelude::*;

verus! {

use crate::hal::gpio::BankPinIds;
use crate::hal::gpio::BtnBankPin;
use crate::hal::gpio::InputCapablePin;
use crate::hal::gpio::IntoPin;
use crate::hal::gpio::LedBankPin;
use crate::hal::gpio::OutputCapablePin;
use crate::hal::gpio::Pin;
use crate::hal::gpio::SpiOledBankPin;
use crate::hal::gpio::SpiSdcardInputBankPin;
use crate::hal::gpio::SpiSdcardOutputBankPin;
use crate::hal::gpio::StatefulOutputCapablePin;
use crate::hal::typesafe::Sealed;

/// On-board LED line 0.
pub struct Led0 {
    level: bool,
}

impl Led0 {
    /// The pin as it leaves reset: driven low.
    pub(crate) fn new() -> (p: Led0)
        ensures
            !p.spec_output(),
    {
        Led0 { level: false }
    }
}

impl Sealed for Led0 {}

impl BankPinIds for Led0 {
    open spec fn spec_bank_id() -> u8 {
        0
    }
}

impl OutputCapablePin for Led0 {
    closed spec fn spec_output(&self) -> bool {
        self.level
    }

    fn set_high(&mut self) -> (r: Result<(), ()>) {
        self.level = true;
        Ok(())
    }

    fn set_low(&mut self) -> (r: Result<(), ()>) {
        self.level = false;
        Ok(())
    }
}

impl StatefulOutputCapablePin for Led0 {
    fn is_set_high(&self) -> (r: Result<bool, ()>) {
        Ok(self.level)
    }

    fn is_set_low(&self) -> (r: Result<bool, ()>) {
        Ok(!self.level)
    }
}

impl LedBankPin for Led0 {}

impl IntoPin<Led0> for Led0 {
    fn into_pin(self) -> (p: Pin<Led0>) {
        Pin::new_output(self)
    }
}

/// On-board LED line 1.
pub struct Led1 {
    level: bool,
}

impl Led1 {
    /// The pin as it leaves reset: driven low.
    pub(crate) fn new() -> (p: Led1)
        ensures
            !p.spec_output(),
    {
        Led1 { level: false }
    }
}

impl Sealed for Led1 {}

impl BankPinIds for Led1 {
    open spec fn spec_bank_id() -> u8 {
        1
    }
}

impl OutputCapablePin for Led1 {
    closed spec fn spec_output(&self) -> bool {
        self.level
    }

    fn set_high(&mut self) -> (r: Result<(), ()>) {
        self.level = true;
        Ok(())
    }

    fn set_low(&mut self) -> (r: Result<(), ()>) {
        self.level = false;
        Ok(())
    }
}

impl StatefulOutputCapablePin for Led1 {
    fn is_set_high(&self) -> (r: Result<bool, ()>) {
        Ok(self.level)
    }

    fn is_set_low(&self) -> (r: Result<bool, ()>) {
        Ok(!self.level)
    }
}

impl LedBankPin for Led1 {}

impl IntoPin<Led1> for Led1 {
    fn into_pin(self) -> (p: Pin<Led1>) {
        Pin::new_output(self)
    }
}

/// On-board LED line 2.
pub struct Led2 {
    level: bool,
}

impl Led2 {
    /// The pin as it leaves reset: driven low.
    pub(crate) fn new() -> (p: Led2)
        ensures
            !p.spec_output(),
    {
        Led2 { level: false }
    }
}

impl Sealed for Led2 {}

impl BankPinIds for Led2 {
    open spec fn spec_bank_id() -> u8 {
        2
    }
}

impl OutputCapablePin for Led2 {
    closed spec fn spec_output(&self) -> bool {
        self.level
    }

    fn set_high(&mut self) -> (r: Result<(), ()>) {
        self.level = true;
        Ok(())
    }

    fn set_low(&mut self) -> (r: Result<(), ()>) {
        self.level = false;
        Ok(())
    }
}

impl StatefulOutputCapablePin for Led2 {
    fn is_set_high(&self) -> (r: Result<bool, ()>) {
        Ok(self.level)
    }

    fn is_set_low(&self) -> (r: Result<bool, ()>) {
        Ok(!self.level)
    }
}

impl LedBankPin for Led2 {}

impl IntoPin<Led2> for Led2 {
    fn into_pin(self) -> (p: Pin<Led2>) {
        Pin::new_output(self)
    }
}

/// On-board LED line 3.
pub struct Led3 {
    level: bool,
}

impl Led3 {
    /// The pin as it leaves reset: driven low.
    pub(crate) fn new() -> (p: Led3)
        ensures
            !p.spec_output(),
    {
        Led3 { level: false }
    }
}

impl Sealed for Led3 {}

impl BankPinIds for Led3 {
    open spec fn spec_bank_id() -> u8 {
        3
    }
}

impl OutputCapablePin for Led3 {
    closed spec fn spec_output(&self) -> bool {
        self.level
    }

    fn set_high(&mut self) -> (r: Result<(), ()>) {
        self.level = true;
        Ok(())
    }

    fn set_low(&mut self) -> (r: Result<(), ()>) {
        self.level = false;
        Ok(())
    }
}

impl StatefulOutputCapablePin for Led3 {
    fn is_set_high(&self) -> (r: Result<bool, ()>) {
        Ok(self.level)
    }

    fn is_set_low(&self) -> (r: Result<bool, ()>) {
        Ok(!self.level)
    }
}

impl LedBankPin for Led3 {}

impl IntoPin<Led3> for Led3 {
    fn into_pin(self) -> (p: Pin<Led3>) {
        Pin::new_output(self)
    }
}

/// On-board LED line 4.
pub struct Led4 {
    level: bool,
}

impl Led4 {
    /// The pin as it leaves reset: driven low.
    pub(crate) fn new() -> (p: Led4)
        ensures
            !p.spec_output(),
    {
        Led4 { level: false }
    }
}

impl Sealed for Led4 {}

impl BankPinIds for Led4 {
    open spec fn spec_bank_id() -> u8 {
        4
    }
}

impl OutputCapablePin for Led4 {
    closed spec fn spec_output(&self) -> bool {
        self.level
    }

    fn set_high(&mut self) -> (r: Result<(), ()>) {
        self.level = true;
        Ok(())
    }

    fn set_low(&mut self) -> (r: Result<(), ()>) {
        self.level = false;
        Ok(())
    }
}

impl StatefulOutputCapablePin for Led4 {
    fn is_set_high(&self) -> (r: Result<bool, ()>) {
        Ok(self.level)
    }

    fn is_set_low(&self) -> (r: Result<bool, ()>) {
        Ok(!self.level)
    }
}

impl LedBankPin for Led4 {}

impl IntoPin<Led4> for Led4 {
    fn into_pin(self) -> (p: Pin<Led4>) {
        Pin::new_output(self)
    }
}

/// On-board LED line 5.
pub struct Led5 {
    level: bool,
}

impl Led5 {
    /// The pin as it leaves reset: driven low.
    pub(crate) fn new() -> (p: Led5)
        ensures
            !p.spec_output(),
    {
        Led5 { level: false }
    }
}

impl Sealed for Led5 {}

impl BankPinIds for Led5 {
    open spec fn spec_bank_id() -> u8 {
        5
    }
}

impl OutputCapablePin for Led5 {
    closed spec fn spec_output(&self) -> bool {
        self.level
    }

    fn set_high(&mut self) -> (r: Result<(), ()>) {
        self.level = true;
        Ok(())
    }

    fn set_low(&mut self) -> (r: Result<(), ()>) {
        self.level = false;
        Ok(())
    }
}

impl StatefulOutputCapablePin for Led5 {
    fn is_set_high(&self) -> (r: Result<bool, ()>) {
        Ok(self.level)
    }

    fn is_set_low(&self) -> (r: Result<bool, ()>) {
        Ok(!self.level)
    }
}

impl LedBankPin for Led5 {}

impl IntoPin<Led5> for Led5 {
    fn into_pin(self) -> (p: Pin<Led5>) {
        Pin::new_output(self)
    }
}

/// On-board LED line 6.
pub struct Led6 {
    level: bool,
}

impl Led6 {
    /// The pin as it leaves reset: driven low.
    pub(crate) fn new() -> (p: Led6)
        ensures
            !p.spec_output(),
    {
        Led6 { level: false }
    }
}

impl Sealed for Led6 {}

impl BankPinIds for Led6 {
    open spec fn spec_bank_id() -> u8 {
        6
    }
}

impl OutputCapablePin for Led6 {
    closed spec fn spec_output(&self) -> bool {
        self.level
    }

    fn set_high(&mut self) -> (r: Result<(), ()>) {
        self.level = true;
        Ok(())
    }

    fn set_low(&mut self) -> (r: Result<(), ()>) {
        self.level = false;
        Ok(())
    }
}

impl StatefulOutputCapablePin for Led6 {
    fn is_set_high(&self) -> (r: Result<bool, ()>) {
        Ok(self.level)
    }

    fn is_set_low(&self) -> (r: Result<bool, ()>) {
        Ok(!self.level)
    }
}

impl LedBankPin for Led6 {}

impl IntoPin<Led6> for Led6 {
    fn into_pin(self) -> (p: Pin<Led6>) {
        Pin::new_output(self)
    }
}

/// On-board LED line 7.
pub struct Led7 {
    level: bool,
}

impl Led7 {
    /// The pin as it leaves reset: driven low.
    pub(crate) fn new() -> (p: Led7)
        ensures
            !p.spec_output(),
    {
        Led7 { level: false }
    }
}

impl Sealed for Led7 {}

impl BankPinIds for Led7 {
    open spec fn spec_bank_id() -> u8 {
        7
    }
}

impl OutputCapablePin for Led7 {
    closed spec fn spec_output(&self) -> bool {
        self.level
    }

    fn set_high(&mut self) -> (r: Result<(), ()>) {
        self.level = true;
        Ok(())
    }

    fn set_low(&mut self) -> (r: Result<(), ()>) {
        self.level = false;
        Ok(())
    }
}

impl StatefulOutputCapablePin for Led7 {
    fn is_set_high(&self) -> (r: Result<bool, ()>) {
        Ok(self.level)
    }

    fn is_set_low(&self) -> (r: Result<bool, ()>) {
        Ok(!self.level)
    }
}

impl LedBankPin for Led7 {}

impl IntoPin<Led7> for Led7 {
    fn into_pin(self) -> (p: Pin<Led7>) {
        Pin::new_output(self)
    }
}

/// On-board button line 1.
pub struct Btn1 {
    level: bool,
}

impl Btn1 {
    /// The pin as it leaves reset, with the line low.
    pub(crate) fn new() -> (p: Btn1)
        ensures
            !p.spec_input(),
    {
        Btn1 { level: false }
    }

    /// Drive the physical line; on a board this is what presses the
    /// button or what the far side of the link puts on the wire.
    pub fn drive(&mut self, level: bool)
        ensures
            final(self).spec_input() == level,
    {
        self.level = level;
    }
}

impl Sealed for Btn1 {}

impl BankPinIds for Btn1 {
    open spec fn spec_bank_id() -> u8 {
        1
    }
}

impl InputCapablePin for Btn1 {
    closed spec fn spec_input(&self) -> bool {
        self.level
    }

    fn is_high(&self) -> (r: Result<bool, ()>) {
        Ok(self.level)
    }

    fn is_low(&self) -> (r: Result<bool, ()>) {
        Ok(!self.level)
    }
}

impl BtnBankPin for Btn1 {}

impl IntoPin<Btn1> for Btn1 {
    fn into_pin(self) -> (p: Pin<Btn1>) {
        Pin::new_input(self)
    }
}

/// On-board button line 2.
pub struct Btn2 {
    level: bool,
}

impl Btn2 {
    /// The pin as it leaves reset, with the line low.
    pub(crate) fn new() -> (p: Btn2)
        ensures
            !p.spec_input(),
    {
        Btn2 { level: false }
    }

    /// Drive the physical line; on a board this is what presses the
    /// button or what the far side of the link puts on the wire.
    pub fn drive(&mut self, level: bool)
        ensures
            final(self).spec_input() == level,
    {
        self.level = level;
    }
}

impl Sealed for Btn2 {}

impl BankPinIds for Btn2 {
    open spec fn spec_bank_id() -> u8 {
        2
    }
}

impl InputCapablePin for Btn2 {
    closed spec fn spec_input(&self) -> bool {
        self.level
    }

    fn is_high(&self) -> (r: Result<bool, ()>) {
        Ok(self.level)
    }

    fn is_low(&self) -> (r: Result<bool, ()>) {
        Ok(!self.level)
    }
}

impl BtnBankPin for Btn2 {}

impl IntoPin<Btn2> for Btn2 {
    fn into_pin(self) -> (p: Pin<Btn2>) {
        Pin::new_input(self)
    }
}

/// On-board button line 3.
pub struct Btn3 {
    level: bool,
}

impl Btn3 {
    /// The pin as it leaves reset, with the line low.
    pub(crate) fn new() -> (p: Btn3)
        ensures
            !p.spec_input(),
    {
        Btn3 { level: false }
    }

    /// Drive the physical line; on a board this is what presses the
    /// button or what the far side of the link puts on the wire.
    pub fn drive(&mut self, level: bool)
        ensures
            final(self).spec_input() == level,
    {
        self.level = level;
    }
}

impl Sealed for Btn3 {}

impl BankPinIds for Btn3 {
    open spec fn spec_bank_id() -> u8 {
        3
    }
}

impl InputCapablePin for Btn3 {
    closed spec fn spec_input(&self) -> bool {
        self.level
    }

    fn is_high(&self) -> (r: Result<bool, ()>) {
        Ok(self.level)
    }

    fn is_low(&self) -> (r: Result<bool, ()>) {
        Ok(!self.level)
    }
}

impl BtnBankPin for Btn3 {}

impl IntoPin<Btn3> for Btn3 {
    fn into_pin(self) -> (p: Pin<Btn3>) {
        Pin::new_input(self)
    }
}

/// On-board button line 4.
pub struct Btn4 {
    level: bool,
}

impl Btn4 {
    /// The pin as it leaves reset, with the line low.
    pub(crate) fn new() -> (p: Btn4)
        ensures
            !p.spec_input(),
    {
        Btn4 { level: false }
    }

    /// Drive the physical line; on a board this is what presses the
    /// button or what the far side of the link puts on the wire.
    pub fn drive(&mut self, level: bool)
        ensures
            final(self).spec_input() == level,
    {
        self.level = level;
    }
}

impl Sealed for Btn4 {}

impl BankPinIds for Btn4 {
    open spec fn spec_bank_id() -> u8 {
        4
    }
}

impl InputCapablePin for Btn4 {
    closed spec fn spec_input(&self) -> bool {
        self.level
    }

    fn is_high(&self) -> (r: Result<bool, ()>) {
        Ok(self.level)
    }

    fn is_low(&self) -> (r: Result<bool, ()>) {
        Ok(!self.level)
    }
}

impl BtnBankPin for Btn4 {}

impl IntoPin<Btn4> for Btn4 {
    fn into_pin(self) -> (p: Pin<Btn4>) {
        Pin::new_input(self)
    }
}

/// On-board button line 5.
pub struct Btn5 {
    level: bool,
}

impl Btn5 {
    /// The pin as it leaves reset, with the line low.
    pub(crate) fn new() -> (p: Btn5)
        ensures
            !p.spec_input(),
    {
        Btn5 { level: false }
    }

    /// Drive the physical line; on a board this is what presses the
    /// button or what the far side of the link puts on the wire.
    pub fn drive(&mut self, level: bool)
        ensures
            final(self).spec_input() == level,
    {
        self.level = level;
    }
}

impl Sealed for Btn5 {}

impl BankPinIds for Btn5 {
    open spec fn spec_bank_id() -> u8 {
        5
    }
}

impl InputCapablePin for Btn5 {
    closed spec fn spec_input(&self) -> bool {
        self.level
    }

    fn is_high(&self) -> (r: Result<bool, ()>) {
        Ok(self.level)
    }

    fn is_low(&self) -> (r: Result<bool, ()>) {
        Ok(!self.level)
    }
}

impl BtnBankPin for Btn5 {}

impl IntoPin<Btn5> for Btn5 {
    fn into_pin(self) -> (p: Pin<Btn5>) {
        Pin::new_input(self)
    }
}

/// On-board button line 6.
pub struct Btn6 {
    level: bool,
}

impl Btn6 {
    /// The pin as it leaves reset, with the line low.
    pub(crate) fn new() -> (p: Btn6)
        ensures
            !p.spec_input(),
    {
        Btn6 { level: false }
    }

    /// Drive the physical line; on a board this is what presses the
    /// button or what the far side of the link puts on the wire.
    pub fn drive(&mut self, level: bool)
        ensures
            final(self).spec_input() == level,
    {
        self.level = level;
    }
}

impl Sealed for Btn6 {}

impl BankPinIds for Btn6 {
    open spec fn spec_bank_id() -> u8 {
        6
    }
}

impl InputCapablePin for Btn6 {
    closed spec fn spec_input(&self) -> bool {
        self.level
    }

    fn is_high(&self) -> (r: Result<bool, ()>) {
        Ok(self.level)
    }

    fn is_low(&self) -> (r: Result<bool, ()>) {
        Ok(!self.level)
    }
}

impl BtnBankPin for Btn6 {}

impl IntoPin<Btn6> for Btn6 {
    fn into_pin(self) -> (p: Pin<Btn6>) {
        Pin::new_input(self)
    }
}

/// Chip-select line of the SD-card SPI bank.
pub struct SpiSdCs {
    level: bool,
}

impl SpiSdCs {
    /// The pin as it leaves reset: driven low.
    pub(crate) fn new() -> (p: SpiSdCs)
        ensures
            !p.spec_output(),
    {
        SpiSdCs { level: false }
    }
}

impl Sealed for SpiSdCs {}

impl BankPinIds for SpiSdCs {
    open spec fn spec_bank_id() -> u8 {
        0
    }
}

impl OutputCapablePin for SpiSdCs {
    closed spec fn spec_output(&self) -> bool {
        self.level
    }

    fn set_high(&mut self) -> (r: Result<(), ()>) {
        self.level = true;
        Ok(())
    }

    fn set_low(&mut self) -> (r: Result<(), ()>) {
        self.level = false;
        Ok(())
    }
}

impl StatefulOutputCapablePin for SpiSdCs {
    fn is_set_high(&self) -> (r: Result<bool, ()>) {
        Ok(self.level)
    }

    fn is_set_low(&self) -> (r: Result<bool, ()>) {
        Ok(!self.level)
    }
}

impl SpiSdcardOutputBankPin for SpiSdCs {}

impl IntoPin<SpiSdCs> for SpiSdCs {
    fn into_pin(self) -> (p: Pin<SpiSdCs>) {
        Pin::new_output(self)
    }
}

/// MOSI line of the SD-card SPI bank.
pub struct SpiSdMosi {
    level: bool,
}

impl SpiSdMosi {
    /// The pin as it leaves reset: driven low.
    pub(crate) fn new() -> (p: SpiSdMosi)
        ensures
            !p.spec_output(),
    {
        SpiSdMosi { level: false }
    }
}

impl Sealed for SpiSdMosi {}

impl BankPinIds for SpiSdMosi {
    open spec fn spec_bank_id() -> u8 {
        1
    }
}

impl OutputCapablePin for SpiSdMosi {
    closed spec fn spec_output(&self) -> bool {
        self.level
    }

    fn set_high(&mut self) -> (r: Result<(), ()>) {
        self.level = true;
        Ok(())
    }

    fn set_low(&mut self) -> (r: Result<(), ()>) {
        self.level = false;
        Ok(())
    }
}

impl StatefulOutputCapablePin for SpiSdMosi {
    fn is_set_high(&self) -> (r: Result<bool, ()>) {
        Ok(self.level)
    }

    fn is_set_low(&self) -> (r: Result<bool, ()>) {
        Ok(!self.level)
    }
}

impl SpiSdcardOutputBankPin for SpiSdMosi {}

impl IntoPin<SpiSdMosi> for SpiSdMosi {
    fn into_pin(self) -> (p: Pin<SpiSdMosi>) {
        Pin::new_output(self)
    }
}

/// Clock line of the SD-card SPI bank.
pub struct SpiSdClk {
    level: bool,
}

impl SpiSdClk {
    /// The pin as it leaves reset: driven low.
    pub(crate) fn new() -> (p: SpiSdClk)
        ensures
            !p.spec_output(),
    {
        SpiSdClk { level: false }
    }
}

impl Sealed for SpiSdClk {}

impl BankPinIds for SpiSdClk {
    open spec fn spec_bank_id() -> u8 {
        2
    }
}

impl OutputCapablePin for SpiSdClk {
    closed spec fn spec_output(&self) -> bool {
        self.level
    }

    fn set_high(&mut self) -> (r: Result<(), ()>) {
        self.level = true;
        Ok(())
    }

    fn set_low(&mut self) -> (r: Result<(), ()>) {
        self.level = false;
        Ok(())
    }
}

impl StatefulOutputCapablePin for SpiSdClk {
    fn is_set_high(&self) -> (r: Result<bool, ()>) {
        Ok(self.level)
    }

    fn is_set_low(&self) -> (r: Result<bool, ()>) {
        Ok(!self.level)
    }
}

impl SpiSdcardOutputBankPin for SpiSdClk {}

impl IntoPin<SpiSdClk> for SpiSdClk {
    fn into_pin(self) -> (p: Pin<SpiSdClk>) {
        Pin::new_output(self)
    }
}

/// MISO line of the SD-card SPI bank.
pub struct SpiSdMiso {
    level: bool,
}

impl SpiSdMiso {
    /// The pin as it leaves reset, with the line low.
    pub(crate) fn new() -> (p: SpiSdMiso)
        ensures
            !p.spec_input(),
    {
        SpiSdMiso { level: false }
    }

    /// Drive the physical line; on a board this is what presses the
    /// button or what the far side of the link puts on the wire.
    pub fn drive(&mut self, level: bool)
        ensures
            final(self).spec_input() == level,
    {
        self.level = level;
    }
}

impl Sealed for SpiSdMiso {}

impl BankPinIds for SpiSdMiso {
    open spec fn spec_bank_id() -> u8 {
        3
    }
}

impl InputCapablePin for SpiSdMiso {
    closed spec fn spec_input(&self) -> bool {
        self.level
    }

    fn is_high(&self) -> (r: Result<bool, ()>) {
        Ok(self.level)
    }

    fn is_low(&self) -> (r: Result<bool, ()>) {
        Ok(!self.level)
    }
}

impl SpiSdcardInputBankPin for SpiSdMiso {}

impl IntoPin<SpiSdMiso> for SpiSdMiso {
    fn into_pin(self) -> (p: Pin<SpiSdMiso>) {
        Pin::new_input(self)
    }
}

/// Chip-select line of the display SPI bank.
pub struct SpiOledCs {
    level: bool,
}

impl SpiOledCs {
    /// The pin as it leaves reset: driven low.
    pub(crate) fn new() -> (p: SpiOledCs)
        ensures
            !p.spec_output(),
    {
        SpiOledCs { level: false }
    }
}

impl Sealed for SpiOledCs {}

impl BankPinIds for SpiOledCs {
    open spec fn spec_bank_id() -> u8 {
        0
    }
}

impl OutputCapablePin for SpiOledCs {
    closed spec fn spec_output(&self) -> bool {
        self.level
    }

    fn set_high(&mut self) -> (r: Result<(), ()>) {
        self.level = true;
        Ok(())
    }

    fn set_low(&mut self) -> (r: Result<(), ()>) {
        self.level = false;
        Ok(())
    }
}

impl StatefulOutputCapablePin for SpiOledCs {
    fn is_set_high(&self) -> (r: Result<bool, ()>) {
        Ok(self.level)
    }

    fn is_set_low(&self) -> (r: Result<bool, ()>) {
        Ok(!self.level)
    }
}

impl SpiOledBankPin for SpiOledCs {}

impl IntoPin<SpiOledCs> for SpiOledCs {
    fn into_pin(self) -> (p: Pin<SpiOledCs>) {
        Pin::new_output(self)
    }
}

/// MOSI line of the display SPI bank.
pub struct SpiOledMosi {
    level: bool,
}

impl SpiOledMosi {
    /// The pin as it leaves reset: driven low.
    pub(crate) fn new() -> (p: SpiOledMosi)
        ensures
            !p.spec_output(),
    {
        SpiOledMosi { level: false }
    }
}

impl Sealed for SpiOledMosi {}

impl BankPinIds for SpiOledMosi {
    open spec fn spec_bank_id() -> u8 {
        1
    }
}

impl OutputCapablePin for SpiOledMosi {
    closed spec fn spec_output(&self) -> bool {
        self.level
    }

    fn set_high(&mut self) -> (r: Result<(), ()>) {
        self.level = true;
        Ok(())
    }

    fn set_low(&mut self) -> (r: Result<(), ()>) {
        self.level = false;
        Ok(())
    }
}

impl StatefulOutputCapablePin for SpiOledMosi {
    fn is_set_high(&self) -> (r: Result<bool, ()>) {
        Ok(self.level)
    }

    fn is_set_low(&self) -> (r: Result<bool, ()>) {
        Ok(!self.level)
    }
}

impl SpiOledBankPin for SpiOledMosi {}

impl IntoPin<SpiOledMosi> for SpiOledMosi {
    fn into_pin(self) -> (p: Pin<SpiOledMosi>) {
        Pin::new_output(self)
    }
}

/// Clock line of the display SPI bank.
pub struct SpiOledClk {
    level: bool,
}

impl SpiOledClk {
    /// The pin as it leaves reset: driven low.
    pub(crate) fn new() -> (p: SpiOledClk)
        ensures
            !p.spec_output(),
    {
        SpiOledClk { level: false }
    }
}

impl Sealed for SpiOledClk {}

impl BankPinIds for SpiOledClk {
    open spec fn spec_bank_id() -> u8 {
        2
    }
}

impl OutputCapablePin for SpiOledClk {
    closed spec fn spec_output(&self) -> bool {
        self.level
    }

    fn set_high(&mut self) -> (r: Result<(), ()>) {
        self.level = true;
        Ok(())
    }

    fn set_low(&mut self) -> (r: Result<(), ()>) {
        self.level = false;
        Ok(())
    }
}

impl StatefulOutputCapablePin for SpiOledClk {
    fn is_set_high(&self) -> (r: Result<bool, ()>) {
        Ok(self.level)
    }

    fn is_set_low(&self) -> (r: Result<bool, ()>) {
        Ok(!self.level)
    }
}

impl SpiOledBankPin for SpiOledClk {}

impl IntoPin<SpiOledClk> for SpiOledClk {
    fn into_pin(self) -> (p: Pin<SpiOledClk>) {
        Pin::new_output(self)
    }
}

/// Data/command line of the display SPI bank.
pub struct SpiOledDc {
    level: bool,
}

impl SpiOledDc {
    /// The pin as it leaves reset: driven low.
    pub(crate) fn new() -> (p: SpiOledDc)
        ensures
            !p.spec_output(),
    {
        SpiOledDc { level: false }
    }
}

impl Sealed for SpiOledDc {}

impl BankPinIds for SpiOledDc {
    open spec fn spec_bank_id() -> u8 {
        3
    }
}

impl OutputCapablePin for SpiOledDc {
    closed spec fn spec_output(&self) -> bool {
        self.level
    }

    fn set_high(&mut self) -> (r: Result<(), ()>) {
        self.level = true;
        Ok(())
    }

    fn set_low(&mut self) -> (r: Result<(), ()>) {
        self.level = false;
        Ok(())
    }
}

impl StatefulOutputCapablePin for SpiOledDc {
    fn is_set_high(&self) -> (r: Result<bool, ()>) {
        Ok(self.level)
    }

    fn is_set_low(&self) -> (r: Result<bool, ()>) {
        Ok(!self.level)
    }
}

impl SpiOledBankPin for SpiOledDc {}

impl IntoPin<SpiOledDc> for SpiOledDc {
    fn into_pin(self) -> (p: Pin<SpiOledDc>) {
        Pin::new_output(self)
    }
}

/// Reset line of the display SPI bank.
pub struct SpiOledRes {
    level: bool,
}

impl SpiOledRes {
    /// The pin as it leaves reset: driven low.
    pub(crate) fn new() -> (p: SpiOledRes)
        ensures
            !p.spec_output(),
    {
        SpiOledRes { level: false }
    }
}

impl Sealed for SpiOledRes {}

impl BankPinIds for SpiOledRes {
    open spec fn spec_bank_id() -> u8 {
        4
    }
}

impl OutputCapablePin for SpiOledRes {
    closed spec fn spec_output(&self) -> bool {
        self.level
    }

    fn set_high(&mut self) -> (r: Result<(), ()>) {
        self.level = true;
        Ok(())
    }

    fn set_low(&mut self) -> (r: Result<(), ()>) {
        self.level = false;
        Ok(())
    }
}

impl StatefulOutputCapablePin for SpiOledRes {
    fn is_set_high(&self) -> (r: Result<bool, ()>) {
        Ok(self.level)
    }

    fn is_set_low(&self) -> (r: Result<bool, ()>) {
        Ok(!self.level)
    }
}

impl SpiOledBankPin for SpiOledRes {}

impl IntoPin<SpiOledRes> for SpiOledRes {
    fn into_pin(self) -> (p: Pin<SpiOledRes>) {
        Pin::new_output(self)
    }
}

} // verus!
