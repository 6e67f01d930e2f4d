//! What holds of the wrapper's operations on all inputs, stated over the
//! specifications that the operations ensure.

use core::cmp::Ordering;
use vstd::prelude::*;
use vstd::std_specs::cmp::{PartialEqSpec, PartialOrdSpec};
use vstd::std_specs::convert::FromSpec;
use crate::checked::Checked;
use crate::division::{quotient, remainder};
use crate::width::{fits, FixedWidth};

verus! {

/// An absent operand, on either side, makes the result of each of the five
/// operators absent: nothing brings a failed computation back.
pub proof fn absent_absorbs<T: FixedWidth>(a: Checked<T>, b: Checked<T>)
    requires
        a.0 is None,
    ensures
        a.sum(b).0 is None,
        b.sum(a).0 is None,
        a.difference(b).0 is None,
        b.difference(a).0 is None,
        a.product(b).0 is None,
        b.product(a).0 is None,
        a.quotient(b).0 is None,
        b.quotient(a).0 is None,
        a.remainder(b).0 is None,
        b.remainder(a).0 is None,
{
}

/// Two present operands whose exact result fits `T` give that result,
/// present. A quotient is a number for a non-zero divisor only, and a
/// remainder is given only where the quotient fits too.
pub proof fn representable_result_is_exact<T: FixedWidth>(x: T, y: T)
    ensures
        fits::<T>(x.as_int() + y.as_int()) ==> Checked(Some(x)).sum(Checked(Some(y)))@ == Some(
            x.as_int() + y.as_int(),
        ),
        fits::<T>(x.as_int() - y.as_int()) ==> Checked(Some(x)).difference(Checked(Some(y)))@
            == Some(x.as_int() - y.as_int()),
        fits::<T>(x.as_int() * y.as_int()) ==> Checked(Some(x)).product(Checked(Some(y)))@ == Some(
            x.as_int() * y.as_int(),
        ),
        y.as_int() != 0 && fits::<T>(quotient(x.as_int(), y.as_int())) ==> Checked(
            Some(x),
        ).quotient(Checked(Some(y)))@ == Some(quotient(x.as_int(), y.as_int())),
        y.as_int() != 0 && fits::<T>(quotient(x.as_int(), y.as_int())) && fits::<T>(
            remainder(x.as_int(), y.as_int()),
        ) ==> Checked(Some(x)).remainder(Checked(Some(y)))@ == Some(
            remainder(x.as_int(), y.as_int()),
        ),
{
    let a = x.as_int();
    let b = y.as_int();
    Checked::<T>::narrow_view(a + b);
    Checked::<T>::narrow_view(a - b);
    Checked::<T>::narrow_view(a * b);
    Checked::<T>::narrow_view(quotient(a, b));
    Checked::<T>::narrow_view(remainder(a, b));
}

/// Two present operands whose exact result does not fit `T` give absent.
/// A quotient by zero is no number and fits no type; a remainder is absent
/// wherever the quotient is.
pub proof fn unrepresentable_result_is_absent<T: FixedWidth>(x: T, y: T)
    ensures
        !fits::<T>(x.as_int() + y.as_int()) ==> Checked(Some(x)).sum(Checked(Some(y))).0 is None,
        !fits::<T>(x.as_int() - y.as_int()) ==> Checked(Some(x)).difference(
            Checked(Some(y)),
        ).0 is None,
        !fits::<T>(x.as_int() * y.as_int()) ==> Checked(Some(x)).product(
            Checked(Some(y)),
        ).0 is None,
        y.as_int() == 0 || !fits::<T>(quotient(x.as_int(), y.as_int())) ==> Checked(
            Some(x),
        ).quotient(Checked(Some(y))).0 is None,
        y.as_int() == 0 || !fits::<T>(quotient(x.as_int(), y.as_int())) || !fits::<T>(
            remainder(x.as_int(), y.as_int()),
        ) ==> Checked(Some(x)).remainder(Checked(Some(y))).0 is None,
{
}

/// A wrapper is determined by its view, so a contract that fixes the view
/// of a result fixes the result.
pub proof fn view_determines_wrapper<T: FixedWidth>(a: Checked<T>, b: Checked<T>)
    requires
        a@ == b@,
    ensures
        a == b,
{
    if let (Some(x), Some(y)) = (a.0, b.0) {
        x.as_int_round_trip();
        y.as_int_round_trip();
    }
}

/// Division and remainder by zero are absent, whatever the dividend.
pub proof fn zero_divisor_is_absent<T: FixedWidth>(a: Checked<T>, zero: T)
    requires
        zero.as_int() == 0,
    ensures
        a.quotient(Checked(Some(zero))).0 is None,
        a.remainder(Checked(Some(zero))).0 is None,
{
}

/// The payload of a wrapped raw value is that value, present; the payload
/// of a wrapped optional value is that optional value, so that `None` gives
/// absent.
pub proof fn construction_round_trip<T>(v: T, o: Option<T>)
    ensures
        Checked::<T>::from_spec(v).0 == Some(v),
        Checked::<T>::from_spec(o).0 == o,
        Checked::<T>::from_spec(None::<T>).0 is None,
{
}

/// Absent equals absent, and differs from every present value.
pub proof fn absent_equals_only_absent<T: PartialEq>(v: T)
    ensures
        Checked::<T>(None).eq_spec(&Checked(None)),
        !Checked::<T>(None).eq_spec(&Checked(Some(v))),
        !Checked(Some(v)).eq_spec(&Checked::<T>(None)),
{
}

/// Absent is strictly less than every present value.
pub proof fn absent_is_least<T: PartialOrd>(v: T)
    ensures
        Checked::<T>(None).partial_cmp_spec(&Checked(Some(v))) == Some(Ordering::Less),
        Checked(Some(v)).partial_cmp_spec(&Checked::<T>(None)) == Some(Ordering::Greater),
{
}

} // verus!
