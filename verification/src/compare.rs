//! Equality and ordering of wrappers.

use core::cmp::Ordering;
use vstd::prelude::*;
use vstd::std_specs::cmp::{PartialEqSpec, PartialEqSpecImpl, PartialOrdSpec, PartialOrdSpecImpl};
use crate::checked::Checked;

verus! {

impl<T: PartialEq> PartialEqSpecImpl for Checked<T> {
    open spec fn obeys_eq_spec() -> bool {
        T::obeys_eq_spec()
    }

    /// Absent equals absent and nothing else; two present values are equal
    /// as their payloads are.
    open spec fn eq_spec(&self, other: &Self) -> bool {
        match (self.0, other.0) {
            (None, None) => true,
            (Some(x), Some(y)) => x.eq_spec(&y),
            _ => false,
        }
    }
}

impl<T: PartialEq> PartialEq for Checked<T> {
    /// Whether two wrappers are equal: both absent, or both present with
    /// payloads that `T` holds equal.
    fn eq(&self, other: &Self) -> (r: bool)
        ensures
            self.0 is None && other.0 is None ==> r,
            (self.0 is None) != (other.0 is None) ==> !r,
            self.0 is Some && other.0 is Some ==> call_ensures(
                T::eq,
                (&self.0->0, &other.0->0),
                r,
            ),
    {
        match (&self.0, &other.0) {
            (None, None) => true,
            (Some(x), Some(y)) => x.eq(y),
            _ => false,
        }
    }
}

impl<T: PartialEq> Eq for Checked<T> {
}

impl<T: PartialOrd> PartialOrdSpecImpl for Checked<T> {
    open spec fn obeys_partial_cmp_spec() -> bool {
        T::obeys_partial_cmp_spec()
    }

    /// Absent comes before every present value; two present values are
    /// ordered as their payloads are.
    open spec fn partial_cmp_spec(&self, other: &Self) -> Option<Ordering> {
        match (self.0, other.0) {
            (None, None) => Some(Ordering::Equal),
            (None, Some(_)) => Some(Ordering::Less),
            (Some(_), None) => Some(Ordering::Greater),
            (Some(x), Some(y)) => x.partial_cmp_spec(&y),
        }
    }
}

impl<T: PartialOrd> PartialOrd for Checked<T> {
    /// How two wrappers are ordered: absent before present, and two present
    /// values as `T` orders their payloads.
    fn partial_cmp(&self, other: &Self) -> (r: Option<Ordering>)
        ensures
            self.0 is None && other.0 is None ==> r == Some(Ordering::Equal),
            self.0 is None && other.0 is Some ==> r == Some(Ordering::Less),
            self.0 is Some && other.0 is None ==> r == Some(Ordering::Greater),
            self.0 is Some && other.0 is Some ==> call_ensures(
                T::partial_cmp,
                (&self.0->0, &other.0->0),
                r,
            ),
    {
        match (&self.0, &other.0) {
            (None, None) => Some(Ordering::Equal),
            (None, Some(_)) => Some(Ordering::Less),
            (Some(_), None) => Some(Ordering::Greater),
            (Some(x), Some(y)) => x.partial_cmp(y),
        }
    }
}

} // verus!
