//! `LED` register of the GPIO peripheral: masked control of the on-board LED outputs.

use vstd::prelude::*;

verus! {

/// Reader for the `LED` register.
pub struct R {
    bits: u16,
}

impl R {
    /// The raw word this reader was built from.
    pub closed spec fn spec_bits(&self) -> u16 {
        self.bits
    }

    /// Wrap a raw word read from the register.
    pub fn new(bits: u16) -> (r: R)
        ensures
            r.spec_bits() == bits,
    {
        R { bits }
    }

    /// The raw register word.
    pub fn bits(&self) -> (b: u16)
        ensures
            b == self.spec_bits(),
    {
        self.bits
    }

    /// Output level of the `n`th LED.
    pub fn led_output(&self, n: u8) -> (b: bool)
        requires
            n < 8,
        ensures
            b == ((self.spec_bits() >> n) & 1 != 0),
    {
        (self.bits >> n) & 1 != 0
    }

    /// Output levels of all eight LEDs, lowest-numbered first.
    pub fn led_output_iter(&self) -> (v: Vec<bool>)
        ensures
            v@.len() == 8,
            forall|i: int| 0 <= i < 8 ==> v@[i] == ((self.spec_bits() >> (i as u8)) & 1 != 0),
    {
        let mut v: Vec<bool> = Vec::new();
        let mut n: u8 = 0;
        while n < 8
            invariant
                n <= 8,
                v@.len() == n as int,
                forall|i: int| 0 <= i < n as int ==> v@[i] == ((self.spec_bits() >> (i as u8)) & 1 != 0),
            decreases 8 - n,
        {
            v.push((self.bits >> n) & 1 != 0);
            n = n + 1;
        }
        v
    }

    /// Bit 0 - Output level of LED 0.
    pub fn led_output0(&self) -> (b: bool)
        ensures
            b == (self.spec_bits() & 1 != 0),
    {
        self.bits & 1 != 0
    }

    /// Bit 1 - Output level of LED 1.
    pub fn led_output1(&self) -> (b: bool)
        ensures
            b == ((self.spec_bits() >> 1) & 1 != 0),
    {
        (self.bits >> 1) & 1 != 0
    }

    /// Bit 2 - Output level of LED 2.
    pub fn led_output2(&self) -> (b: bool)
        ensures
            b == ((self.spec_bits() >> 2) & 1 != 0),
    {
        (self.bits >> 2) & 1 != 0
    }

    /// Bit 3 - Output level of LED 3.
    pub fn led_output3(&self) -> (b: bool)
        ensures
            b == ((self.spec_bits() >> 3) & 1 != 0),
    {
        (self.bits >> 3) & 1 != 0
    }

    /// Bit 4 - Output level of LED 4.
    pub fn led_output4(&self) -> (b: bool)
        ensures
            b == ((self.spec_bits() >> 4) & 1 != 0),
    {
        (self.bits >> 4) & 1 != 0
    }

    /// Bit 5 - Output level of LED 5.
    pub fn led_output5(&self) -> (b: bool)
        ensures
            b == ((self.spec_bits() >> 5) & 1 != 0),
    {
        (self.bits >> 5) & 1 != 0
    }

    /// Bit 6 - Output level of LED 6.
    pub fn led_output6(&self) -> (b: bool)
        ensures
            b == ((self.spec_bits() >> 6) & 1 != 0),
    {
        (self.bits >> 6) & 1 != 0
    }

    /// Bit 7 - Output level of LED 7.
    pub fn led_output7(&self) -> (b: bool)
        ensures
            b == ((self.spec_bits() >> 7) & 1 != 0),
    {
        (self.bits >> 7) & 1 != 0
    }

    /// Write mask for the `n`th LED; it must be set for the matching output bit to take effect.
    pub fn led_mask(&self, n: u8) -> (b: bool)
        requires
            n < 8,
        ensures
            b == ((self.spec_bits() >> (n + 8)) & 1 != 0),
    {
        (self.bits >> (n + 8)) & 1 != 0
    }

    /// Write masks of all eight LEDs, lowest-numbered first.
    pub fn led_mask_iter(&self) -> (v: Vec<bool>)
        ensures
            v@.len() == 8,
            forall|i: int| 0 <= i < 8 ==> v@[i] == ((self.spec_bits() >> (8 + i as u8)) & 1 != 0),
    {
        let mut v: Vec<bool> = Vec::new();
        let mut n: u8 = 0;
        while n < 8
            invariant
                n <= 8,
                v@.len() == n as int,
                forall|i: int| 0 <= i < n as int ==> v@[i] == ((self.spec_bits() >> (8 + i as u8)) & 1 != 0),
            decreases 8 - n,
        {
            v.push((self.bits >> (n + 8)) & 1 != 0);
            n = n + 1;
        }
        v
    }

    /// Bit 8 - Write mask for LED 0.
    pub fn led_mask0(&self) -> (b: bool)
        ensures
            b == ((self.spec_bits() >> 8) & 1 != 0),
    {
        (self.bits >> 8) & 1 != 0
    }

    /// Bit 9 - Write mask for LED 1.
    pub fn led_mask1(&self) -> (b: bool)
        ensures
            b == ((self.spec_bits() >> 9) & 1 != 0),
    {
        (self.bits >> 9) & 1 != 0
    }

    /// Bit 10 - Write mask for LED 2.
    pub fn led_mask2(&self) -> (b: bool)
        ensures
            b == ((self.spec_bits() >> 10) & 1 != 0),
    {
        (self.bits >> 10) & 1 != 0
    }

    /// Bit 11 - Write mask for LED 3.
    pub fn led_mask3(&self) -> (b: bool)
        ensures
            b == ((self.spec_bits() >> 11) & 1 != 0),
    {
        (self.bits >> 11) & 1 != 0
    }

    /// Bit 12 - Write mask for LED 4.
    pub fn led_mask4(&self) -> (b: bool)
        ensures
            b == ((self.spec_bits() >> 12) & 1 != 0),
    {
        (self.bits >> 12) & 1 != 0
    }

    /// Bit 13 - Write mask for LED 5.
    pub fn led_mask5(&self) -> (b: bool)
        ensures
            b == ((self.spec_bits() >> 13) & 1 != 0),
    {
        (self.bits >> 13) & 1 != 0
    }

    /// Bit 14 - Write mask for LED 6.
    pub fn led_mask6(&self) -> (b: bool)
        ensures
            b == ((self.spec_bits() >> 14) & 1 != 0),
    {
        (self.bits >> 14) & 1 != 0
    }

    /// Bit 15 - Write mask for LED 7.
    pub fn led_mask7(&self) -> (b: bool)
        ensures
            b == ((self.spec_bits() >> 15) & 1 != 0),
    {
        (self.bits >> 15) & 1 != 0
    }
}

/// Writer for the `LED` register.  Field updates take the writer by value
/// and hand it back, so they chain like the builder they replace.
pub struct W {
    bits: u16,
}

impl W {
    /// The word this writer will put on the bus.
    pub closed spec fn spec_bits(&self) -> u16 {
        self.bits
    }

    /// A writer with every bit clear.
    pub fn zero() -> (w: W)
        ensures
            w.spec_bits() == 0,
    {
        W { bits: 0 }
    }

    /// The raw word built so far.
    pub fn bits(&self) -> (b: u16)
        ensures
            b == self.spec_bits(),
    {
        self.bits
    }

    /// Output level of the `n`th LED.
    pub fn led_output(self, n: u8, bit: bool) -> (w: W)
        requires
            n < 8,
        ensures
            w.spec_bits() == (self.spec_bits() & !(1u16 << n)) | (if bit { 1u16 << n } else { 0u16 }),
    {
        W { bits: (self.bits & !(1u16 << n)) | (if bit { 1u16 << n } else { 0u16 }) }
    }

    /// Bit 0 - Output level of LED 0.
    pub fn led_output0(self, bit: bool) -> (w: W)
        ensures
            w.spec_bits() == (self.spec_bits() & 0xfffe) | (if bit { 1u16 } else { 0u16 }),
    {
        W { bits: (self.bits & 0xfffe) | (if bit { 1u16 } else { 0u16 }) }
    }

    /// Bit 1 - Output level of LED 1.
    pub fn led_output1(self, bit: bool) -> (w: W)
        ensures
            w.spec_bits() == (self.spec_bits() & 0xfffd) | (if bit { 2u16 } else { 0u16 }),
    {
        W { bits: (self.bits & 0xfffd) | (if bit { 2u16 } else { 0u16 }) }
    }

    /// Bit 2 - Output level of LED 2.
    pub fn led_output2(self, bit: bool) -> (w: W)
        ensures
            w.spec_bits() == (self.spec_bits() & 0xfffb) | (if bit { 4u16 } else { 0u16 }),
    {
        W { bits: (self.bits & 0xfffb) | (if bit { 4u16 } else { 0u16 }) }
    }

    /// Bit 3 - Output level of LED 3.
    pub fn led_output3(self, bit: bool) -> (w: W)
        ensures
            w.spec_bits() == (self.spec_bits() & 0xfff7) | (if bit { 8u16 } else { 0u16 }),
    {
        W { bits: (self.bits & 0xfff7) | (if bit { 8u16 } else { 0u16 }) }
    }

    /// Bit 4 - Output level of LED 4.
    pub fn led_output4(self, bit: bool) -> (w: W)
        ensures
            w.spec_bits() == (self.spec_bits() & 0xffef) | (if bit { 16u16 } else { 0u16 }),
    {
        W { bits: (self.bits & 0xffef) | (if bit { 16u16 } else { 0u16 }) }
    }

    /// Bit 5 - Output level of LED 5.
    pub fn led_output5(self, bit: bool) -> (w: W)
        ensures
            w.spec_bits() == (self.spec_bits() & 0xffdf) | (if bit { 32u16 } else { 0u16 }),
    {
        W { bits: (self.bits & 0xffdf) | (if bit { 32u16 } else { 0u16 }) }
    }

    /// Bit 6 - Output level of LED 6.
    pub fn led_output6(self, bit: bool) -> (w: W)
        ensures
            w.spec_bits() == (self.spec_bits() & 0xffbf) | (if bit { 64u16 } else { 0u16 }),
    {
        W { bits: (self.bits & 0xffbf) | (if bit { 64u16 } else { 0u16 }) }
    }

    /// Bit 7 - Output level of LED 7.
    pub fn led_output7(self, bit: bool) -> (w: W)
        ensures
            w.spec_bits() == (self.spec_bits() & 0xff7f) | (if bit { 128u16 } else { 0u16 }),
    {
        W { bits: (self.bits & 0xff7f) | (if bit { 128u16 } else { 0u16 }) }
    }

    /// Write mask for the `n`th LED; it must be set for the matching output bit to take effect.
    pub fn led_mask(self, n: u8, bit: bool) -> (w: W)
        requires
            n < 8,
        ensures
            w.spec_bits() == (self.spec_bits() & !(1u16 << (n + 8))) | (if bit { 1u16 << (n + 8) } else { 0u16 }),
    {
        W { bits: (self.bits & !(1u16 << (n + 8))) | (if bit { 1u16 << (n + 8) } else { 0u16 }) }
    }

    /// Bit 8 - Write mask for LED 0.
    pub fn led_mask0(self, bit: bool) -> (w: W)
        ensures
            w.spec_bits() == (self.spec_bits() & 0xfeff) | (if bit { 256u16 } else { 0u16 }),
    {
        W { bits: (self.bits & 0xfeff) | (if bit { 256u16 } else { 0u16 }) }
    }

    /// Bit 9 - Write mask for LED 1.
    pub fn led_mask1(self, bit: bool) -> (w: W)
        ensures
            w.spec_bits() == (self.spec_bits() & 0xfdff) | (if bit { 512u16 } else { 0u16 }),
    {
        W { bits: (self.bits & 0xfdff) | (if bit { 512u16 } else { 0u16 }) }
    }

    /// Bit 10 - Write mask for LED 2.
    pub fn led_mask2(self, bit: bool) -> (w: W)
        ensures
            w.spec_bits() == (self.spec_bits() & 0xfbff) | (if bit { 1024u16 } else { 0u16 }),
    {
        W { bits: (self.bits & 0xfbff) | (if bit { 1024u16 } else { 0u16 }) }
    }

    /// Bit 11 - Write mask for LED 3.
    pub fn led_mask3(self, bit: bool) -> (w: W)
        ensures
            w.spec_bits() == (self.spec_bits() & 0xf7ff) | (if bit { 2048u16 } else { 0u16 }),
    {
        W { bits: (self.bits & 0xf7ff) | (if bit { 2048u16 } else { 0u16 }) }
    }

    /// Bit 12 - Write mask for LED 4.
    pub fn led_mask4(self, bit: bool) -> (w: W)
        ensures
            w.spec_bits() == (self.spec_bits() & 0xefff) | (if bit { 4096u16 } else { 0u16 }),
    {
        W { bits: (self.bits & 0xefff) | (if bit { 4096u16 } else { 0u16 }) }
    }

    /// Bit 13 - Write mask for LED 5.
    pub fn led_mask5(self, bit: bool) -> (w: W)
        ensures
            w.spec_bits() == (self.spec_bits() & 0xdfff) | (if bit { 8192u16 } else { 0u16 }),
    {
        W { bits: (self.bits & 0xdfff) | (if bit { 8192u16 } else { 0u16 }) }
    }

    /// Bit 14 - Write mask for LED 6.
    pub fn led_mask6(self, bit: bool) -> (w: W)
        ensures
            w.spec_bits() == (self.spec_bits() & 0xbfff) | (if bit { 16384u16 } else { 0u16 }),
    {
        W { bits: (self.bits & 0xbfff) | (if bit { 16384u16 } else { 0u16 }) }
    }

    /// Bit 15 - Write mask for LED 7.
    pub fn led_mask7(self, bit: bool) -> (w: W)
        ensures
            w.spec_bits() == (self.spec_bits() & 0x7fff) | (if bit { 32768u16 } else { 0u16 }),
    {
        W { bits: (self.bits & 0x7fff) | (if bit { 32768u16 } else { 0u16 }) }
    }
}

/// Marker naming the `LED` register layout.
pub struct LedSpec;

} // verus!
