//! Register block of the DAC peripheral.

use vstd::prelude::*;

verus! {

use crate::pac::dac_left_output;
use crate::pac::dac_output;

/// Register file of the DAC peripheral: the sample level currently driven
/// on each analog channel.
pub struct RegisterBlock {
    left: u8,
    right: u8,
}

impl RegisterBlock {
    /// The level driven on the left channel.
    pub closed spec fn spec_left(&self) -> u8 {
        self.left
    }

    /// The level driven on the right channel.
    pub closed spec fn spec_right(&self) -> u8 {
        self.right
    }

    /// The register file in its reset state.
    pub fn new() -> (rb: RegisterBlock)
        ensures
            rb.spec_left() == 0,
            rb.spec_right() == 0,
    {
        RegisterBlock { left: 0, right: 0 }
    }

    /// The level driven on the left channel.
    pub fn left_output(&self) -> (b: u8)
        ensures
            b == self.spec_left(),
    {
        self.left
    }

    /// The level driven on the right channel.
    pub fn right_output(&self) -> (b: u8)
        ensures
            b == self.spec_right(),
    {
        self.right
    }

    /// Write the `LEFT_OUTPUT` register.
    pub fn write_left_output(&mut self, w: dac_left_output::W)
        ensures
            final(self).spec_left() == w.spec_bits(),
            final(self).spec_right() == old(self).spec_right(),
    {
        self.left = w.bits();
    }

    /// Write the `RIGHT_OUTPUT` register.
    pub fn write_right_output(&mut self, w: dac_left_output::W)
        ensures
            final(self).spec_right() == w.spec_bits(),
            final(self).spec_left() == old(self).spec_left(),
    {
        self.right = w.bits();
    }

    /// Write the `OUTPUT` register: both channel levels in one write.
    pub fn write_output(&mut self, w: dac_output::W)
        ensures
            final(self).spec_left() == (w.spec_bits() & 0xff) as u8,
            final(self).spec_right() == ((w.spec_bits() >> 8) & 0xff) as u8,
    {
        let bits = w.bits();
        self.left = (bits & 0xff) as u8;
        self.right = ((bits >> 8) & 0xff) as u8;
    }
}

} // verus!
