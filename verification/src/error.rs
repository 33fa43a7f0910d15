//! Boundary validation errors.
//!
//! Values arriving from outside the engine (for example a deserialized
//! panning or mix level) are rejected when they fall outside the type's
//! closed interval; they are never silently clamped at that boundary.

use vstd::prelude::*;

verus! {

/// A raw value offered at an external boundary fell outside the closed
/// interval `[lo, hi]` of the bounded type it was meant for.
#[derive(Debug, Clone, Copy, PartialEq, Eq, Structural)]
pub struct OutOfRangeError {
    /// The rejected raw fixed-point value.
    pub raw: i64,
    /// Lower end of the interval the value was checked against.
    pub lo: i64,
    /// Upper end of the interval the value was checked against.
    pub hi: i64,
}

} // verus!
