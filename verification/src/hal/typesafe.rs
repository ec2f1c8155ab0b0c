//! Marker-trait plumbing for the typestate drivers.

use vstd::prelude::*;

verus! {

/// Super trait used to mark traits with an exhaustive set of
/// implementations.
pub trait Sealed {}

} // verus!
