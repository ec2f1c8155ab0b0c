//! `TIMER_HI_VALUE` register of the timer peripheral: the upper word of the 64-bit counter.

use vstd::prelude::*;

verus! {

/// Reader for the `TIMER_HI_VALUE` register.
pub struct R {
    bits: u32,
}

impl R {
    /// The raw word this reader was built from.
    pub closed spec fn spec_bits(&self) -> u32 {
        self.bits
    }

    /// Wrap a raw word read from the register.
    pub fn new(bits: u32) -> (r: R)
        ensures
            r.spec_bits() == bits,
    {
        R { bits }
    }

    /// The raw register word.
    pub fn bits(&self) -> (b: u32)
        ensures
            b == self.spec_bits(),
    {
        self.bits
    }
}

/// Marker naming the `TIMER_HI_VALUE` register layout.
pub struct TimerHiValueSpec;

} // verus!
