//! Board-level pin banks: the LEDs and buttons as the application sees
//! them.

use vstd::prelude::*;

verus! {

use crate::hal::gpio::Pin;
use crate::hal::gpio_pins::Btn1;
use crate::hal::gpio_pins::Btn2;
use crate::hal::gpio_pins::Btn3;
use crate::hal::gpio_pins::Btn4;
use crate::hal::gpio_pins::Btn5;
use crate::hal::gpio_pins::Btn6;
use crate::hal::gpio_pins::Led0;
use crate::hal::gpio_pins::Led1;
use crate::hal::gpio_pins::Led2;
use crate::hal::gpio_pins::Led3;
use crate::hal::gpio_pins::Led4;
use crate::hal::gpio_pins::Led5;
use crate::hal::gpio_pins::Led6;
use crate::hal::gpio_pins::Led7;
use crate::hal::gpio::InputCapablePin;
use crate::hal::gpio::OutputCapablePin;
use crate::player::session::ControlInputs;

/// The eight on-board LEDs, each behind its typed pin handle.
pub struct LedBank {
    /// LED line 0.
    pub led0: Pin<Led0>,
    /// LED line 1.
    pub led1: Pin<Led1>,
    /// LED line 2.
    pub led2: Pin<Led2>,
    /// LED line 3.
    pub led3: Pin<Led3>,
    /// LED line 4.
    pub led4: Pin<Led4>,
    /// LED line 5.
    pub led5: Pin<Led5>,
    /// LED line 6.
    pub led6: Pin<Led6>,
    /// LED line 7.
    pub led7: Pin<Led7>,
}

impl LedBank {
    /// Whether every LED of the bank drives the given level.
    pub open spec fn spec_all(&self, level: bool) -> bool {
        &&& self.led0.spec_pin().spec_output() == level
        &&& self.led1.spec_pin().spec_output() == level
        &&& self.led2.spec_pin().spec_output() == level
        &&& self.led3.spec_pin().spec_output() == level
        &&& self.led4.spec_pin().spec_output() == level
        &&& self.led5.spec_pin().spec_output() == level
        &&& self.led6.spec_pin().spec_output() == level
        &&& self.led7.spec_pin().spec_output() == level
    }

    /// Build the bank from the wrapped LED pins.
    pub fn new(
        led0: Pin<Led0>,
        led1: Pin<Led1>,
        led2: Pin<Led2>,
        led3: Pin<Led3>,
        led4: Pin<Led4>,
        led5: Pin<Led5>,
        led6: Pin<Led6>,
        led7: Pin<Led7>,
    ) -> (b: LedBank)
        ensures
            b.led0 == led0,
            b.led1 == led1,
            b.led2 == led2,
            b.led3 == led3,
            b.led4 == led4,
            b.led5 == led5,
            b.led6 == led6,
            b.led7 == led7,
    {
        LedBank { led0, led1, led2, led3, led4, led5, led6, led7 }
    }

    /// Build the bank straight from the raw GPIO pins.
    pub fn from_gpio_pins(
        gpio_led0: Led0,
        gpio_led1: Led1,
        gpio_led2: Led2,
        gpio_led3: Led3,
        gpio_led4: Led4,
        gpio_led5: Led5,
        gpio_led6: Led6,
        gpio_led7: Led7,
    ) -> (b: LedBank)
        ensures
            b.led0.spec_pin() == gpio_led0,
            b.led7.spec_pin() == gpio_led7,
    {
        LedBank::new(
            Pin::new_output(gpio_led0),
            Pin::new_output(gpio_led1),
            Pin::new_output(gpio_led2),
            Pin::new_output(gpio_led3),
            Pin::new_output(gpio_led4),
            Pin::new_output(gpio_led5),
            Pin::new_output(gpio_led6),
            Pin::new_output(gpio_led7),
        )
    }

    /// Turn every LED off.
    pub fn set_all_low(&mut self)
        ensures
            final(self).spec_all(false),
    {
        let _ = self.led0.set_low();
        let _ = self.led1.set_low();
        let _ = self.led2.set_low();
        let _ = self.led3.set_low();
        let _ = self.led4.set_low();
        let _ = self.led5.set_low();
        let _ = self.led6.set_low();
        let _ = self.led7.set_low();
    }

    /// Turn every LED on.
    pub fn set_all_high(&mut self)
        ensures
            final(self).spec_all(true),
    {
        let _ = self.led0.set_high();
        let _ = self.led1.set_high();
        let _ = self.led2.set_high();
        let _ = self.led3.set_high();
        let _ = self.led4.set_high();
        let _ = self.led5.set_high();
        let _ = self.led6.set_high();
        let _ = self.led7.set_high();
    }

    /// Drive each LED to the matching entry of `states`.
    pub fn set_all_states(&mut self, states: [bool; 8])
        ensures
            final(self).led0.spec_pin().spec_output() == states[0],
            final(self).led1.spec_pin().spec_output() == states[1],
            final(self).led2.spec_pin().spec_output() == states[2],
            final(self).led3.spec_pin().spec_output() == states[3],
            final(self).led4.spec_pin().spec_output() == states[4],
            final(self).led5.spec_pin().spec_output() == states[5],
            final(self).led6.spec_pin().spec_output() == states[6],
            final(self).led7.spec_pin().spec_output() == states[7],
    {
        let _ = if states[0] {
            self.led0.set_high()
        } else {
            self.led0.set_low()
        };
        let _ = if states[1] {
            self.led1.set_high()
        } else {
            self.led1.set_low()
        };
        let _ = if states[2] {
            self.led2.set_high()
        } else {
            self.led2.set_low()
        };
        let _ = if states[3] {
            self.led3.set_high()
        } else {
            self.led3.set_low()
        };
        let _ = if states[4] {
            self.led4.set_high()
        } else {
            self.led4.set_low()
        };
        let _ = if states[5] {
            self.led5.set_high()
        } else {
            self.led5.set_low()
        };
        let _ = if states[6] {
            self.led6.set_high()
        } else {
            self.led6.set_low()
        };
        let _ = if states[7] {
            self.led7.set_high()
        } else {
            self.led7.set_low()
        };
    }
}

/// The six on-board buttons, each behind its typed pin handle.
pub struct BtnBank {
    /// Button line 1 (volume down).
    pub btn1: Pin<Btn1>,
    /// Button line 2 (volume up).
    pub btn2: Pin<Btn2>,
    /// Button line 3 (cancel / back).
    pub btn3: Pin<Btn3>,
    /// Button line 4 (pause / resume).
    pub btn4: Pin<Btn4>,
    /// Button line 5 (seek backward).
    pub btn5: Pin<Btn5>,
    /// Button line 6 (seek forward).
    pub btn6: Pin<Btn6>,
}

impl BtnBank {
    /// Build the bank from the wrapped button pins.
    pub fn new(
        btn1: Pin<Btn1>,
        btn2: Pin<Btn2>,
        btn3: Pin<Btn3>,
        btn4: Pin<Btn4>,
        btn5: Pin<Btn5>,
        btn6: Pin<Btn6>,
    ) -> (b: BtnBank)
        ensures
            b.btn1 == btn1,
            b.btn2 == btn2,
            b.btn3 == btn3,
            b.btn4 == btn4,
            b.btn5 == btn5,
            b.btn6 == btn6,
    {
        BtnBank { btn1, btn2, btn3, btn4, btn5, btn6 }
    }

    /// Build the bank straight from the raw GPIO pins.
    pub fn from_gpio_pins(
        gpio_btn1: Btn1,
        gpio_btn2: Btn2,
        gpio_btn3: Btn3,
        gpio_btn4: Btn4,
        gpio_btn5: Btn5,
        gpio_btn6: Btn6,
    ) -> (b: BtnBank)
        ensures
            b.btn1.spec_pin() == gpio_btn1,
            b.btn6.spec_pin() == gpio_btn6,
    {
        BtnBank::new(
            Pin::new_input(gpio_btn1),
            Pin::new_input(gpio_btn2),
            Pin::new_input(gpio_btn3),
            Pin::new_input(gpio_btn4),
            Pin::new_input(gpio_btn5),
            Pin::new_input(gpio_btn6),
        )
    }

    /// Poll all six lines into one control reading, with the board's
    /// wiring: button 4 pauses, 3 cancels, 6 and 5 seek, 2 and 1 step
    /// the volume.
    pub fn read_controls(&self) -> (c: ControlInputs)
        ensures
            c.pause == self.btn4.spec_pin().spec_input(),
            c.back == self.btn3.spec_pin().spec_input(),
            c.forward == self.btn6.spec_pin().spec_input(),
            c.backward == self.btn5.spec_pin().spec_input(),
            c.vol_up == self.btn2.spec_pin().spec_input(),
            c.vol_down == self.btn1.spec_pin().spec_input(),
    {
        let pause = match self.btn4.is_high() {
            Ok(b) => b,
            Err(_) => false,
        };
        let back = match self.btn3.is_high() {
            Ok(b) => b,
            Err(_) => false,
        };
        let forward = match self.btn6.is_high() {
            Ok(b) => b,
            Err(_) => false,
        };
        let backward = match self.btn5.is_high() {
            Ok(b) => b,
            Err(_) => false,
        };
        let vol_up = match self.btn2.is_high() {
            Ok(b) => b,
            Err(_) => false,
        };
        let vol_down = match self.btn1.is_high() {
            Ok(b) => b,
            Err(_) => false,
        };
        ControlInputs { pause, back, forward, backward, vol_up, vol_down }
    }
}

} // verus!
