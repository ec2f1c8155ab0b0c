//! Register block of the display peripheral.

use vstd::prelude::*;

verus! {

use crate::pac::display_ctrl;
use crate::pac::display_transfer;

/// Register file of the display peripheral.
pub struct RegisterBlock {
    ctrl: u8,
    transfer: u16,
}

impl RegisterBlock {
    /// The last word written to the `CTRL` register.
    pub closed spec fn spec_ctrl(&self) -> u8 {
        self.ctrl
    }

    /// The last word written to the `TRANSFER` register.
    pub closed spec fn spec_transfer(&self) -> u16 {
        self.transfer
    }

    /// The register file in its reset state.
    pub fn new() -> (rb: RegisterBlock)
        ensures
            rb.spec_ctrl() == 0,
            rb.spec_transfer() == 0,
    {
        RegisterBlock { ctrl: 0, transfer: 0 }
    }

    /// Read the `CTRL` register.
    pub fn ctrl(&self) -> (r: display_ctrl::R)
        ensures
            r.spec_bits() == self.spec_ctrl(),
    {
        display_ctrl::R::new(self.ctrl)
    }

    /// Write the `CTRL` register.
    pub fn write_ctrl(&mut self, w: display_ctrl::W)
        ensures
            final(self).spec_ctrl() == w.spec_bits(),
            final(self).spec_transfer() == old(self).spec_transfer(),
    {
        self.ctrl = w.bits();
    }

    /// The last word pushed through the `TRANSFER` register.
    pub fn transfer(&self) -> (b: u16)
        ensures
            b == self.spec_transfer(),
    {
        self.transfer
    }

    /// Write the `TRANSFER` register: push one byte over the display link.
    pub fn write_transfer(&mut self, w: display_transfer::W)
        ensures
            final(self).spec_transfer() == w.spec_bits(),
            final(self).spec_ctrl() == old(self).spec_ctrl(),
    {
        self.transfer = w.bits();
    }
}

} // verus!
