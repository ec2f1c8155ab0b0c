//! Busy-wait pacing.
//!
//! Two delay providers pace the firmware: [`IntrDelay`] burns a counted
//! number of instruction cycles (one instruction cycle is 120 ns at the
//! 25 MHz core clock), and [`Timer0Delay`] polls the microsecond counter
//! of the timer peripheral (see [`crate::hal::timer`]).  Both only turn
//! wall-clock time into nothing, so they carry no model state; the
//! unverified shell that runs on the board supplies the actual spinning.

use vstd::prelude::*;

verus! {

/// Delay provider that burns instruction cycles.
#[derive(Clone, Copy)]
pub struct IntrDelay;

/// Delay provider that polls the microsecond counter of the timer
/// peripheral.
#[derive(Clone, Copy)]
pub struct Timer0Delay;

} // verus!
