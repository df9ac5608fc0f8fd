//! Small helpers shared by the action implementations: branch-weight hints
//! kept as ordinary functions, and a trait for unwrapping nullable values
//! whose emptiness has been ruled out.

use vstd::prelude::*;

verus! {

/// Marker for a branch that is expected to be rarely taken.
pub fn cold() {
}

/// Returns its argument unchanged; callers use it to tag the expected branch.
pub fn likely(b: bool) -> (r: bool)
    ensures
        r == b,
{
    if !b {
        cold()
    }
    b
}

/// Returns its argument unchanged; callers use it to tag the unexpected branch.
pub fn unlikely(b: bool) -> (r: bool)
    ensures
        r == b,
{
    if b {
        cold()
    }
    b
}

/// Returns its argument unchanged; callers use it to tag an error path.
pub fn cold_err<T>(v: T) -> (r: T)
    ensures
        r == v,
{
    v
}

/// Unwrapping for nullable-like values whose emptiness the caller has ruled
/// out. Unlike the blind unwrap this formulation demands a proof that a value
/// is there, so no implementation can ever fault at run time.
pub trait Unwrappable<T>: Sized {
    /// True when a value is stored and unwrapping is allowed.
    spec fn holds_value(&self) -> bool;

    /// The stored value, meaningful only when `holds_value` is true.
    spec fn stored_value(&self) -> T;

    /// Unwrap a nullable value while asserting that it cannot be empty.
    fn unsafe_unwrap(self) -> (r: T)
        requires
            self.holds_value(),
        ensures
            r == self.stored_value(),
    ;
}

impl<T> Unwrappable<T> for Option<T> {
    open spec fn holds_value(&self) -> bool {
        self is Some
    }

    open spec fn stored_value(&self) -> T {
        self->0
    }

    fn unsafe_unwrap(self) -> (r: T) {
        match self {
            Some(t) => t,
            None => vstd::pervasive::unreached(),
        }
    }
}

impl<T, E> Unwrappable<T> for Result<T, E> {
    open spec fn holds_value(&self) -> bool {
        self is Ok
    }

    open spec fn stored_value(&self) -> T {
        self->Ok_0
    }

    fn unsafe_unwrap(self) -> (r: T) {
        match self {
            Ok(t) => t,
            Err(_) => vstd::pervasive::unreached(),
        }
    }
}

} // verus!
