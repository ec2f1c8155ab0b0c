//! SPI peripheral handles.
//!
//! The hardware SPI engine shifts bytes through the registers modelled
//! in [`crate::pac::spi0`].  The bus traffic itself — writing a byte,
//! spinning on the busy flag, collecting the answer — is wire work that
//! the unverified shell performs; what belongs here is the exclusive
//! handle that makes at most one driver own an SPI engine at a time.

use vstd::prelude::*;

verus! {

use crate::hal::typesafe::Sealed;
use crate::pac::spi0;

/// Marker trait for the SPI engines of the chip.
pub trait SpiPeripheral: Sealed {}

/// Exclusive handle on the first SPI engine.
pub struct Spi0 {
    regs: spi0::RegisterBlock,
}

impl Spi0 {
    /// The register file of this engine.
    pub closed spec fn spec_regs(&self) -> spi0::RegisterBlock {
        self.regs
    }

    /// Take ownership of the engine in its reset state.
    pub(crate) fn new() -> (s: Spi0)
        ensures
            s.spec_regs().spec_ctrl() == 0,
            !s.spec_regs().spec_busy(),
    {
        Spi0 { regs: spi0::RegisterBlock::new() }
    }
}

impl Sealed for Spi0 {}

impl SpiPeripheral for Spi0 {}

/// Exclusive handle on the second SPI engine.
pub struct Spi1 {
    _inner: (),
}

impl Spi1 {
    /// Take ownership of the engine.
    pub(crate) fn new() -> (s: Spi1) {
        Spi1 { _inner: () }
    }
}

impl Sealed for Spi1 {}

impl SpiPeripheral for Spi1 {}

/// A driver-facing SPI port over one of the engines.
pub struct Spi<P: SpiPeripheral> {
    peripheral: P,
}

impl<P: SpiPeripheral> Spi<P> {
    /// The engine behind this port.
    pub closed spec fn spec_peripheral(&self) -> P {
        self.peripheral
    }

    /// Wrap an engine in a port.
    pub fn new(peripheral: P) -> (s: Spi<P>)
        ensures
            s.spec_peripheral() == peripheral,
    {
        Spi { peripheral }
    }

    /// Dissolve the port and hand the engine back.
    pub fn bring_down(self) -> (p: P)
        ensures
            p == self.spec_peripheral(),
    {
        self.peripheral
    }
}

} // verus!
