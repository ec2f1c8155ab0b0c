//! Small helpers shared across the firmware.

use vstd::prelude::*;

verus! {

/// Unwrap a result while discarding the error value entirely, so that
/// no error formatting ends up in the binary.  Callers must know the
/// value is there: the precondition demands it, so the unwrap can never
/// fail.
pub trait VoidUnwrap<T>: Sized {
    /// Whether unwrapping is possible.
    spec fn spec_can_unwrap(&self) -> bool;

    /// The value carried when unwrapping is possible.
    spec fn spec_value(&self) -> T;

    /// Unwrap to the value, ignoring the error.
    fn void_unwrap(self) -> (t: T)
        requires
            self.spec_can_unwrap(),
        ensures
            t == self.spec_value(),
    ;
}

impl<T, E> VoidUnwrap<T> for Result<T, E> {
    open spec fn spec_can_unwrap(&self) -> bool {
        self is Ok
    }

    open spec fn spec_value(&self) -> T {
        self->Ok_0
    }

    fn void_unwrap(self) -> (t: T) {
        match self {
            Ok(t) => t,
            Err(_) => vstd::pervasive::unreached(),
        }
    }
}

} // verus!
