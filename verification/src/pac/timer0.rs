//! Register block of the timer peripheral.

use vstd::prelude::*;

verus! {

use crate::pac::timer0_ctrl;
use crate::pac::timer0_hi_value;
use crate::pac::timer0_lo_value;

/// Register file of the timer peripheral: a 64-bit free-running counter
/// that ticks once per microsecond while enabled.
pub struct RegisterBlock {
    ctrl: u8,
    counter: u64,
}

impl RegisterBlock {
    /// The last word written to the `CTRL` register.
    pub closed spec fn spec_ctrl(&self) -> u8 {
        self.ctrl
    }

    /// The current counter value.
    pub closed spec fn spec_counter(&self) -> u64 {
        self.counter
    }

    /// The register file in its reset state: counter stopped at zero.
    pub fn new() -> (rb: RegisterBlock)
        ensures
            rb.spec_ctrl() == 0,
            rb.spec_counter() == 0,
    {
        RegisterBlock { ctrl: 0, counter: 0 }
    }

    /// Read the `CTRL` register.
    pub fn ctrl(&self) -> (r: timer0_ctrl::R)
        ensures
            r.spec_bits() == self.spec_ctrl(),
    {
        timer0_ctrl::R::new(self.ctrl)
    }

    /// Write the `CTRL` register.  Bit 0 starts or stops the counter; a
    /// write with bit 1 set clears the counter and the stored word keeps
    /// only the enable bit.
    pub fn write_ctrl(&mut self, w: timer0_ctrl::W)
        ensures
            final(self).spec_ctrl() == w.spec_bits() & 1,
            final(self).spec_counter() == if (w.spec_bits() >> 1) & 1 != 0 {
                0u64
            } else {
                old(self).spec_counter()
            },
    {
        let bits = w.bits();
        if (bits >> 1) & 1 != 0 {
            self.counter = 0;
        }
        self.ctrl = bits & 1;
    }

    /// Read the `HI_VALUE` register: the upper counter word.
    pub fn hi_value(&self) -> (r: timer0_hi_value::R)
        ensures
            r.spec_bits() == (self.spec_counter() >> 32) as u32,
    {
        timer0_hi_value::R::new((self.counter >> 32) as u32)
    }

    /// Read the `LO_VALUE` register: the lower counter word.
    pub fn lo_value(&self) -> (r: timer0_lo_value::R)
        ensures
            r.spec_bits() == (self.spec_counter() & 0xffff_ffff) as u32,
    {
        timer0_lo_value::R::new((self.counter & 0xffff_ffff) as u32)
    }

    /// Let `ticks` microseconds elapse: a running counter advances and
    /// wraps at 64 bits, a stopped one holds its value.
    pub fn advance(&mut self, ticks: u64)
        ensures
            final(self).spec_ctrl() == old(self).spec_ctrl(),
            final(self).spec_counter() == if old(self).spec_ctrl() & 1 != 0 {
                ((old(self).spec_counter() + ticks) % 0x1_0000_0000_0000_0000) as u64
            } else {
                old(self).spec_counter()
            },
    {
        if self.ctrl & 1 != 0 {
            self.counter = self.counter.wrapping_add(ticks);
        }
    }
}

} // verus!
