//! Register block of the audio streamer peripheral.

use vstd::prelude::*;

verus! {

use crate::pac::audio_control;

/// Register file of the audio streamer peripheral.
///
/// The stored word holds the writable `CONTROL` fields.  The queue flags of
/// a live peripheral are driven by its FIFO; the audio driver models them
/// from its queue state rather than from this stored word.
pub struct RegisterBlock {
    control: u8,
}

impl RegisterBlock {
    /// The last word written to the `CONTROL` register.
    pub closed spec fn spec_control(&self) -> u8 {
        self.control
    }

    /// The register file in its reset state.
    pub fn new() -> (rb: RegisterBlock)
        ensures
            rb.spec_control() == 0,
    {
        RegisterBlock { control: 0 }
    }

    /// Read the `CONTROL` register.
    pub fn control(&self) -> (r: audio_control::R)
        ensures
            r.spec_bits() == self.spec_control(),
    {
        audio_control::R::new(self.control)
    }

    /// Write the `CONTROL` register.
    pub fn write_control(&mut self, w: audio_control::W)
        ensures
            final(self).spec_control() == w.spec_bits(),
    {
        self.control = w.bits();
    }
}

} // verus!
