//! Display peripheral state and error taxonomy.
//!
//! The display driver proper — SPI transfers, windowing, pixel pushes —
//! lives with the unverified shell around this library; what belongs
//! here is its typestate vocabulary and the commands of
//! [`crate::hal::spidisplay`], which are plain values.

use vstd::prelude::*;

verus! {

use crate::hal::typesafe::Sealed;

/// Marker trait for the display lifecycle states.
pub trait DisplayState: Sealed {}

/// Lifecycle state: the panel is not initialized.
pub struct Uninitialized;

/// Lifecycle state: the panel is initialized and accepts drawing.
pub struct Initialized;

impl Sealed for Uninitialized {}

impl Sealed for Initialized {}

impl DisplayState for Uninitialized {}

impl DisplayState for Initialized {}

/// Why a display operation failed: one of the two transports under the
/// panel reported an error.
pub enum DisplayError<PINERR, SPIERR> {
    /// Underlying pin error.
    PinError(PINERR),
    /// Underlying SPI error.
    SpiError(SPIERR),
}

} // verus!
