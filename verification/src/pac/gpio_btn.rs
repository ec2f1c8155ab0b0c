//! `BTN` register of the GPIO peripheral: the on-board button inputs.

use vstd::prelude::*;

verus! {

/// Reader for the `BTN` register.
pub struct R {
    bits: u8,
}

impl R {
    /// The raw word this reader was built from.
    pub closed spec fn spec_bits(&self) -> u8 {
        self.bits
    }

    /// Wrap a raw word read from the register.
    pub fn new(bits: u8) -> (r: R)
        ensures
            r.spec_bits() == bits,
    {
        R { bits }
    }

    /// The raw register word.
    pub fn bits(&self) -> (b: u8)
        ensures
            b == self.spec_bits(),
    {
        self.bits
    }

    /// Input level of the `n`th button line.
    pub fn btn_input(&self, n: u8) -> (b: bool)
        requires
            n < 8,
        ensures
            b == ((self.spec_bits() >> n) & 1 != 0),
    {
        (self.bits >> n) & 1 != 0
    }

    /// Input levels of all eight button lines, lowest-numbered first.
    pub fn btn_input_iter(&self) -> (v: Vec<bool>)
        ensures
            v@.len() == 8,
            forall|i: int| 0 <= i < 8 ==> v@[i] == ((self.spec_bits() >> (i as u8)) & 1 != 0),
    {
        let mut v: Vec<bool> = Vec::new();
        let mut n: u8 = 0;
        while n < 8
            invariant
                n <= 8,
                v@.len() == n as int,
                forall|i: int| 0 <= i < n as int ==> v@[i] == ((self.spec_bits() >> (i as u8)) & 1 != 0),
            decreases 8 - n,
        {
            v.push((self.bits >> n) & 1 != 0);
            n = n + 1;
        }
        v
    }

    /// Bit 0 - Input level of button line 0.
    pub fn btn_input0(&self) -> (b: bool)
        ensures
            b == (self.spec_bits() & 1 != 0),
    {
        self.bits & 1 != 0
    }

    /// Bit 1 - Input level of button line 1.
    pub fn btn_input1(&self) -> (b: bool)
        ensures
            b == ((self.spec_bits() >> 1) & 1 != 0),
    {
        (self.bits >> 1) & 1 != 0
    }

    /// Bit 2 - Input level of button line 2.
    pub fn btn_input2(&self) -> (b: bool)
        ensures
            b == ((self.spec_bits() >> 2) & 1 != 0),
    {
        (self.bits >> 2) & 1 != 0
    }

    /// Bit 3 - Input level of button line 3.
    pub fn btn_input3(&self) -> (b: bool)
        ensures
            b == ((self.spec_bits() >> 3) & 1 != 0),
    {
        (self.bits >> 3) & 1 != 0
    }

    /// Bit 4 - Input level of button line 4.
    pub fn btn_input4(&self) -> (b: bool)
        ensures
            b == ((self.spec_bits() >> 4) & 1 != 0),
    {
        (self.bits >> 4) & 1 != 0
    }

    /// Bit 5 - Input level of button line 5.
    pub fn btn_input5(&self) -> (b: bool)
        ensures
            b == ((self.spec_bits() >> 5) & 1 != 0),
    {
        (self.bits >> 5) & 1 != 0
    }

    /// Bit 6 - Input level of button line 6.
    pub fn btn_input6(&self) -> (b: bool)
        ensures
            b == ((self.spec_bits() >> 6) & 1 != 0),
    {
        (self.bits >> 6) & 1 != 0
    }

    /// Bit 7 - Input level of button line 7.
    pub fn btn_input7(&self) -> (b: bool)
        ensures
            b == ((self.spec_bits() >> 7) & 1 != 0),
    {
        (self.bits >> 7) & 1 != 0
    }
}

/// Marker naming the `BTN` register layout.
pub struct BtnSpec;

} // verus!
