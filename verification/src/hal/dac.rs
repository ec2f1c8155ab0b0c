//! Digital-to-analog converter peripheral.
//!
//! The DAC accepts 8-bit audio samples and drives them on its two analog
//! channels.  Owning an [`AudioDac`] value is owning the peripheral: it is
//! the token the audio streamer driver captures to gain exclusive access
//! to the audio output path.

use vstd::prelude::*;

verus! {

use crate::pac::dac;
use crate::pac::dac_left_output;
use crate::pac::dac_output;

/// Exclusive handle on the DAC peripheral.
pub struct AudioDac {
    regs: dac::RegisterBlock,
}

impl AudioDac {
    /// The level currently driven on the left channel.
    pub closed spec fn spec_left(&self) -> u8 {
        self.regs.spec_left()
    }

    /// The level currently driven on the right channel.
    pub closed spec fn spec_right(&self) -> u8 {
        self.regs.spec_right()
    }

    /// Take ownership of the DAC peripheral in its reset state.
    pub(crate) fn new() -> (d: AudioDac)
        ensures
            d.spec_left() == 0,
            d.spec_right() == 0,
    {
        AudioDac { regs: dac::RegisterBlock::new() }
    }

    /// Drive a sample on the left channel.
    pub fn write_left_sample(&mut self, sample: u8)
        ensures
            final(self).spec_left() == sample,
            final(self).spec_right() == old(self).spec_right(),
    {
        self.regs.write_left_output(dac_left_output::W::zero().value(sample));
    }

    /// Drive a sample on the right channel.
    pub fn write_right_sample(&mut self, sample: u8)
        ensures
            final(self).spec_right() == sample,
            final(self).spec_left() == old(self).spec_left(),
    {
        self.regs.write_right_output(dac_left_output::W::zero().value(sample));
    }

    /// Drive both channels in one register write.
    pub fn write_stereo_sample(&mut self, left: u8, right: u8)
        ensures
            final(self).spec_left() == left,
            final(self).spec_right() == right,
    {
        let w = dac_output::W::zero().left_output(left).right_output(right);
        proof {
            assert((((((0u16 & 0xff00) | (left as u16)) & 0x00ff) | ((right as u16) << 8))
                & 0xff) as u8 == left) by (bit_vector);
            assert(((((((0u16 & 0xff00) | (left as u16)) & 0x00ff) | ((right as u16) << 8))
                >> 8) & 0xff) as u8 == right) by (bit_vector);
        }
        self.regs.write_output(w);
    }
}

} // verus!
