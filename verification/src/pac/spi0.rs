//! Register block of the SPI peripheral.

use vstd::prelude::*;

verus! {

use crate::pac::spi0_ctrl;
use crate::pac::spi0_read_and_status;
use crate::pac::spi0_read_data;
use crate::pac::spi0_status;
use crate::pac::spi0_write_data;

/// Register file of the SPI peripheral.
///
/// Writing the data register latches the byte to transmit and starts a
/// transfer; the device on the bus answers with a received byte, which is
/// modelled by [`RegisterBlock::complete_transfer`].
pub struct RegisterBlock {
    ctrl: u8,
    tx: u8,
    rx: u8,
    ready: bool,
    busy: bool,
}

impl RegisterBlock {
    /// The last word written to the `CTRL` register.
    pub closed spec fn spec_ctrl(&self) -> u8 {
        self.ctrl
    }

    /// The byte latched for transmission.
    pub closed spec fn spec_tx(&self) -> u8 {
        self.tx
    }

    /// The last received byte.
    pub closed spec fn spec_rx(&self) -> u8 {
        self.rx
    }

    /// Whether a received byte is ready.
    pub closed spec fn spec_ready(&self) -> bool {
        self.ready
    }

    /// Whether a transfer is in progress.
    pub closed spec fn spec_busy(&self) -> bool {
        self.busy
    }

    /// The register file in its reset state.
    pub fn new() -> (rb: RegisterBlock)
        ensures
            rb.spec_ctrl() == 0,
            rb.spec_tx() == 0,
            rb.spec_rx() == 0,
            !rb.spec_ready(),
            !rb.spec_busy(),
    {
        RegisterBlock { ctrl: 0, tx: 0, rx: 0, ready: false, busy: false }
    }

    /// The last word written to the `CTRL` register.
    pub fn ctrl(&self) -> (b: u8)
        ensures
            b == self.spec_ctrl(),
    {
        self.ctrl
    }

    /// Write the `CTRL` register.
    pub fn write_ctrl(&mut self, w: spi0_ctrl::W)
        ensures
            final(self).spec_ctrl() == w.spec_bits(),
            final(self).spec_tx() == old(self).spec_tx(),
            final(self).spec_rx() == old(self).spec_rx(),
            final(self).spec_ready() == old(self).spec_ready(),
            final(self).spec_busy() == old(self).spec_busy(),
    {
        self.ctrl = w.bits();
    }

    /// The byte latched in the `WRITE_DATA` register.
    pub fn write_data(&self) -> (b: u8)
        ensures
            b == self.spec_tx(),
    {
        self.tx
    }

    /// Write the `WRITE_DATA` register: latch a byte and start a transfer.
    pub fn set_write_data(&mut self, w: spi0_write_data::W)
        ensures
            final(self).spec_tx() == w.spec_bits(),
            final(self).spec_busy(),
            !final(self).spec_ready(),
            final(self).spec_rx() == old(self).spec_rx(),
            final(self).spec_ctrl() == old(self).spec_ctrl(),
    {
        self.tx = w.bits();
        self.busy = true;
        self.ready = false;
    }

    /// The device on the bus finishes the transfer and hands back a byte.
    pub fn complete_transfer(&mut self, received: u8)
        ensures
            final(self).spec_rx() == received,
            final(self).spec_ready(),
            !final(self).spec_busy(),
            final(self).spec_tx() == old(self).spec_tx(),
            final(self).spec_ctrl() == old(self).spec_ctrl(),
    {
        self.rx = received;
        self.ready = true;
        self.busy = false;
    }

    /// Read the `READ_DATA` register.
    pub fn read_data(&self) -> (r: spi0_read_data::R)
        ensures
            r.spec_bits() == self.spec_rx(),
    {
        spi0_read_data::R::new(self.rx)
    }

    /// Read the `STATUS` register.
    pub fn status(&self) -> (r: spi0_status::R)
        ensures
            r.spec_bits() == (if self.spec_ready() { 1u8 } else { 0u8 })
                | (if self.spec_busy() { 2u8 } else { 0u8 }),
    {
        let bits: u8 = (if self.ready { 1u8 } else { 0u8 })
            | (if self.busy { 2u8 } else { 0u8 });
        spi0_status::R::new(bits)
    }

    /// Read the `READ_AND_STATUS` register: received byte and status in
    /// one bus access.
    pub fn read_and_status(&self) -> (r: spi0_read_and_status::R)
        ensures
            r.spec_bits() == self.spec_rx() as u16
                | (if self.spec_ready() { 0x100u16 } else { 0u16 })
                | (if self.spec_busy() { 0x200u16 } else { 0u16 }),
    {
        let bits: u16 = self.rx as u16
            | (if self.ready { 0x100u16 } else { 0u16 })
            | (if self.busy { 0x200u16 } else { 0u16 });
        spi0_read_and_status::R::new(bits)
    }
}

} // verus!
