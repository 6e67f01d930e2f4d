//! The wrapper type and its construction.

use vstd::prelude::*;
use vstd::std_specs::convert::FromSpecImpl;

verus! {

/// A number of type `T`, or the fact that a number could not be computed.
///
/// The payload is `Some` for a present value and `None` for an absent one.
#[must_use]
#[derive(Debug, Clone, Copy)]
pub struct Checked<T>(pub Option<T>);

impl<T> Checked<T> {
    /// Combines two wrappers through a fallible operation on their payloads.
    ///
    /// The operation runs only where both payloads are present; an absent
    /// operand makes the result absent without `f` being called.
    pub fn infix<F, U>(self, rhs: Self, f: F) -> (r: Checked<U>) where F: Fn(T, T) -> Option<U>
        requires
            self.0 is Some && rhs.0 is Some ==> f.requires((self.0->0, rhs.0->0)),
        ensures
            self.0 is None || rhs.0 is None ==> r.0 is None,
            self.0 is Some && rhs.0 is Some ==> f.ensures((self.0->0, rhs.0->0), r.0),
    {
        match (self.0, rhs.0) {
            (Some(x), Some(y)) => Checked(f(x, y)),
            _ => Checked(None),
        }
    }
}

impl<T> FromSpecImpl<T> for Checked<T> {
    open spec fn obeys_from_spec() -> bool {
        true
    }

    open spec fn from_spec(value: T) -> Self {
        Checked(Some(value))
    }
}

impl<T> From<T> for Checked<T> {
    /// Wraps a raw value: the result is always present.
    fn from(value: T) -> (r: Self)
        ensures
            r.0 == Some(value),
    {
        Checked(Some(value))
    }
}

impl<T> FromSpecImpl<Option<T>> for Checked<T> {
    open spec fn obeys_from_spec() -> bool {
        true
    }

    open spec fn from_spec(value: Option<T>) -> Self {
        Checked(value)
    }
}

impl<T> From<Option<T>> for Checked<T> {
    /// Wraps an optional value as it is: present where it holds a value,
    /// absent otherwise.
    fn from(value: Option<T>) -> (r: Self)
        ensures
            r.0 == value,
    {
        Checked(value)
    }
}

} // verus!
