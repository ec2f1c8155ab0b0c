//! Timer peripheral: a 64-bit counter that ticks once per microsecond.

use vstd::prelude::*;

verus! {

use crate::hal::typesafe::Sealed;
use crate::pac::timer0;
use crate::pac::timer0_ctrl;

/// Marker trait for the timer devices of the chip.
pub trait TimerDevice: Sealed {}

/// Marker for the first (and only) hardware timer.
#[derive(Clone, Copy)]
pub struct CopyableTimer0 {
    _inner: (),
}

impl Sealed for CopyableTimer0 {}

impl TimerDevice for CopyableTimer0 {}

/// Handle on a hardware timer.  The counter is carried as model state;
/// [`Timer::advance`] stands in for the microseconds a real board lets
/// pass on its own.
pub struct Timer<D: TimerDevice> {
    device: D,
    regs: timer0::RegisterBlock,
}

impl Timer<CopyableTimer0> {
    /// Open the first timer, running from zero.
    pub fn new_timer0() -> (t: Timer<CopyableTimer0>)
        ensures
            t.spec_counter() == 0,
            t.spec_running(),
    {
        let mut regs = timer0::RegisterBlock::new();
        regs.write_ctrl(timer0_ctrl::W::zero().enable(true));
        proof {
            assert(((0u8 & 0xfe) | 1u8) & 1 == 1u8) by (bit_vector);
            assert((((0u8 & 0xfe) | 1u8) >> 1) & 1 == 0u8) by (bit_vector);
            assert(1u8 & 1 == 1u8) by (bit_vector);
        }
        Timer { device: CopyableTimer0 { _inner: () }, regs }
    }
}

impl<D: TimerDevice> Timer<D> {
    /// The current counter value, in microseconds.
    pub closed spec fn spec_counter(&self) -> u64 {
        self.regs.spec_counter()
    }

    /// Whether the counter is running.
    pub open spec fn spec_running(&self) -> bool {
        self.spec_ctrl() & 1 == 1
    }

    /// The control word of the timer.
    pub closed spec fn spec_ctrl(&self) -> u8 {
        self.regs.spec_ctrl()
    }

    /// Read the full 64-bit counter.
    pub fn get_counter(&self) -> (t: u64)
        ensures
            t == self.spec_counter(),
    {
        let hi = self.regs.hi_value().bits();
        let lo = self.regs.lo_value().bits();
        proof {
            let c = self.spec_counter();
            assert(c == ((((c >> 32) as u32) as u64) << 32) | (((c & 0xffff_ffff) as u32) as u64))
                by (bit_vector);
        }
        ((hi as u64) << 32) | (lo as u64)
    }

    /// Read the low word of the counter; cheap, and enough for short
    /// waits, which tolerate its wrap.
    pub fn get_counter_low(&self) -> (t: u32)
        ensures
            t == self.spec_counter() & 0xffff_ffff,
    {
        proof {
            let c = self.spec_counter();
            assert(((c & 0xffff_ffff) as u32) == c & 0xffff_ffff) by (bit_vector);
        }
        self.regs.lo_value().bits()
    }

    /// Let `ticks` microseconds pass; a running counter advances and
    /// wraps at 64 bits.  On a board, time does this by itself.
    pub fn advance(&mut self, ticks: u64)
        ensures
            final(self).spec_ctrl() == old(self).spec_ctrl(),
            final(self).spec_counter() == if old(self).spec_running() {
                ((old(self).spec_counter() + ticks) % 0x1_0000_0000_0000_0000) as u64
            } else {
                old(self).spec_counter()
            },
    {
        proof {
            let c = self.regs.spec_ctrl();
            assert((c & 1 != 0) == (c & 1 == 1)) by (bit_vector);
        }
        self.regs.advance(ticks);
    }

    /// Pause for at least `us` microseconds: wait until the counter has
    /// moved that far.  In the model the wait advances the counter
    /// itself, which is exactly "at least `us` microseconds later".
    pub(crate) fn delay_us(&mut self, us: u32)
        ensures
            final(self).spec_ctrl() == old(self).spec_ctrl(),
            old(self).spec_running() ==> final(self).spec_counter() == ((old(
                self,
            ).spec_counter() + us) % 0x1_0000_0000_0000_0000) as u64,
            !old(self).spec_running() ==> final(self).spec_counter() == old(self).spec_counter(),
    {
        self.advance(us as u64);
    }
}

} // verus!
