//! A parameter's authored value specification.

use crate::mix::Mix;
use crate::panning::Panning;
use vstd::prelude::*;

verus! {

/// Either a fixed value, or a non-owning reference to another live
/// parameter whose current value is read each time this value is resolved
/// (so one parameter's output can drive another).
///
/// The reference variant holds a lookup key resolved through the shared
/// registry at read time, never a live pointer: parameters may be torn down
/// independently of values that reference them, and resolution of a missing
/// parameter degrades to a caller-supplied default, never a crash.
#[derive(Debug, Clone, Copy, PartialEq, Eq)]
pub enum Value<T> {
    /// Resolves to the wrapped value unconditionally.
    Fixed(T),
    /// Resolves to the current value of the parameter registered under this
    /// key, falling back to the caller-supplied default when no such
    /// parameter exists.
    FromParameter(u64),
}

impl<T: Copy> Value<T> {
    /// What a resolution yields, given what the registry lookup found.
    pub open spec fn resolve_spec(self, looked_up: Option<T>, default: T) -> T {
        match self {
            Value::Fixed(v) => v,
            Value::FromParameter(_) => match looked_up {
                Some(v) => v,
                None => default,
            },
        }
    }

    /// Resolve the value. `looked_up` is the referenced parameter's current
    /// value as found in the shared registry, or `None` when the parameter
    /// no longer exists — a non-fatal case that yields `default`. A fixed
    /// value ignores the lookup entirely.
    pub fn resolve(&self, looked_up: Option<T>, default: T) -> (r: T)
        ensures
            r == self.resolve_spec(looked_up, default),
    {
        match self {
            Value::Fixed(v) => *v,
            Value::FromParameter(_) => match looked_up {
                Some(v) => v,
                None => default,
            },
        }
    }
}

impl From<Panning> for Value<Panning> {
    /// A panning value stands for itself.
    fn from(value: Panning) -> (r: Value<Panning>) {
        Value::Fixed(value)
    }
}

impl vstd::std_specs::convert::FromSpecImpl<Panning> for Value<Panning> {
    open spec fn obeys_from_spec() -> bool {
        true
    }

    open spec fn from_spec(value: Panning) -> Value<Panning> {
        Value::Fixed(value)
    }
}

impl From<Mix> for Value<Mix> {
    /// A mix value stands for itself.
    fn from(value: Mix) -> (r: Value<Mix>) {
        Value::Fixed(value)
    }
}

impl vstd::std_specs::convert::FromSpecImpl<Mix> for Value<Mix> {
    open spec fn obeys_from_spec() -> bool {
        true
    }

    open spec fn from_spec(value: Mix) -> Value<Mix> {
        Value::Fixed(value)
    }
}

} // verus!
