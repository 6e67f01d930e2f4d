//! The arithmetic operators of the wrapper.

use vstd::prelude::*;
use vstd::std_specs::ops::{AddSpecImpl, DivSpecImpl, MulSpecImpl, RemSpecImpl, SubSpecImpl};
use crate::addition::CheckedAdd;
use crate::checked::Checked;
use crate::division::{
    checked_quotient, checked_remainder, quotient, remainder, CheckedDiv, CheckedRem,
};
use crate::multiplication::CheckedMul;
use crate::subtraction::CheckedSub;
use crate::width::{fits, narrow, within, FixedWidth};

verus! {

impl<T: FixedWidth> View for Checked<T> {
    type V = Option<int>;

    /// The integer that the payload stands for, where there is one.
    open spec fn view(&self) -> Option<int> {
        match self.0 {
            Some(x) => Some(x.as_int()),
            None => None,
        }
    }
}

impl<T: FixedWidth> Checked<T> {
    /// The wrapper of the sum: present where both operands are and the sum
    /// fits `T`.
    pub open spec fn sum(self, rhs: Self) -> Self {
        match (self.0, rhs.0) {
            (Some(x), Some(y)) => Checked(narrow::<T>(x.as_int() + y.as_int())),
            _ => Checked(None),
        }
    }

    /// The wrapper of the difference: present where both operands are and
    /// the difference fits `T`.
    pub open spec fn difference(self, rhs: Self) -> Self {
        match (self.0, rhs.0) {
            (Some(x), Some(y)) => Checked(narrow::<T>(x.as_int() - y.as_int())),
            _ => Checked(None),
        }
    }

    /// The wrapper of the product: present where both operands are and the
    /// product fits `T`.
    pub open spec fn product(self, rhs: Self) -> Self {
        match (self.0, rhs.0) {
            (Some(x), Some(y)) => Checked(narrow::<T>(x.as_int() * y.as_int())),
            _ => Checked(None),
        }
    }

    /// The wrapper of the quotient, rounded towards zero: present where both
    /// operands are, the divisor is not zero and the quotient fits `T`.
    pub open spec fn quotient(self, rhs: Self) -> Self {
        match (self.0, rhs.0) {
            (Some(x), Some(y)) => Checked(checked_quotient::<T>(x.as_int(), y.as_int())),
            _ => Checked(None),
        }
    }

    /// The wrapper of the remainder, which has the sign of the dividend:
    /// present where both operands are, the divisor is not zero and the
    /// quotient and the remainder fit `T`.
    pub open spec fn remainder(self, rhs: Self) -> Self {
        match (self.0, rhs.0) {
            (Some(x), Some(y)) => Checked(checked_remainder::<T>(x.as_int(), y.as_int())),
            _ => Checked(None),
        }
    }

    /// The view of a narrowed integer is the integer where it fits, and
    /// absent otherwise.
    pub proof fn narrow_view(v: int)
        ensures
            Checked(narrow::<T>(v))@ == within::<T>(v),
    {
        if fits::<T>(v) {
            T::from_int_round_trip(v);
        }
    }
}

impl<T: CheckedAdd> AddSpecImpl for Checked<T> {
    open spec fn obeys_add_spec() -> bool {
        true
    }

    open spec fn add_req(self, rhs: Self) -> bool {
        true
    }

    open spec fn add_spec(self, rhs: Self) -> Self {
        self.sum(rhs)
    }
}

impl<T: CheckedAdd> core::ops::Add for Checked<T> {
    type Output = Self;

    /// Checked addition: absent where an operand is absent or the sum does
    /// not fit `T`, otherwise the sum.
    fn add(self, rhs: Self) -> (r: Self)
        ensures
            r == self.sum(rhs),
            self.0 is None || rhs.0 is None ==> r.0 is None,
            r@ == match (self@, rhs@) {
                (Some(a), Some(b)) => within::<T>(a + b),
                _ => None,
            },
    {
        proof {
            if let (Some(a), Some(b)) = (self@, rhs@) {
                Self::narrow_view(a + b);
            }
        }
        let f = |a: T, b: T| -> (s: Option<T>)
            ensures
                s == narrow::<T>(a.as_int() + b.as_int()),
            { a.checked_add(&b) };
        self.infix(rhs, f)
    }
}

impl<T: CheckedSub> SubSpecImpl for Checked<T> {
    open spec fn obeys_sub_spec() -> bool {
        true
    }

    open spec fn sub_req(self, rhs: Self) -> bool {
        true
    }

    open spec fn sub_spec(self, rhs: Self) -> Self {
        self.difference(rhs)
    }
}

impl<T: CheckedSub> core::ops::Sub for Checked<T> {
    type Output = Self;

    /// Checked subtraction: absent where an operand is absent or the
    /// difference does not fit `T`, otherwise the difference.
    fn sub(self, rhs: Self) -> (r: Self)
        ensures
            r == self.difference(rhs),
            self.0 is None || rhs.0 is None ==> r.0 is None,
            r@ == match (self@, rhs@) {
                (Some(a), Some(b)) => within::<T>(a - b),
                _ => None,
            },
    {
        proof {
            if let (Some(a), Some(b)) = (self@, rhs@) {
                Self::narrow_view(a - b);
            }
        }
        let f = |a: T, b: T| -> (s: Option<T>)
            ensures
                s == narrow::<T>(a.as_int() - b.as_int()),
            { a.checked_sub(&b) };
        self.infix(rhs, f)
    }
}

impl<T: CheckedMul> MulSpecImpl for Checked<T> {
    open spec fn obeys_mul_spec() -> bool {
        true
    }

    open spec fn mul_req(self, rhs: Self) -> bool {
        true
    }

    open spec fn mul_spec(self, rhs: Self) -> Self {
        self.product(rhs)
    }
}

impl<T: CheckedMul> core::ops::Mul for Checked<T> {
    type Output = Self;

    /// Checked multiplication: absent where an operand is absent or the
    /// product does not fit `T`, otherwise the product.
    fn mul(self, rhs: Self) -> (r: Self)
        ensures
            r == self.product(rhs),
            self.0 is None || rhs.0 is None ==> r.0 is None,
            r@ == match (self@, rhs@) {
                (Some(a), Some(b)) => within::<T>(a * b),
                _ => None,
            },
    {
        proof {
            if let (Some(a), Some(b)) = (self@, rhs@) {
                Self::narrow_view(a * b);
            }
        }
        let f = |a: T, b: T| -> (s: Option<T>)
            ensures
                s == narrow::<T>(a.as_int() * b.as_int()),
            { a.checked_mul(&b) };
        self.infix(rhs, f)
    }
}

impl<T: CheckedDiv> DivSpecImpl for Checked<T> {
    open spec fn obeys_div_spec() -> bool {
        true
    }

    open spec fn div_req(self, rhs: Self) -> bool {
        true
    }

    open spec fn div_spec(self, rhs: Self) -> Self {
        self.quotient(rhs)
    }
}

impl<T: CheckedDiv> core::ops::Div for Checked<T> {
    type Output = Self;

    /// Checked division: absent where an operand is absent, the divisor is
    /// zero or the quotient does not fit `T`, otherwise the quotient rounded
    /// towards zero.
    fn div(self, rhs: Self) -> (r: Self)
        ensures
            r == self.quotient(rhs),
            self.0 is None || rhs.0 is None ==> r.0 is None,
            r@ == match (self@, rhs@) {
                (Some(a), Some(b)) => if b == 0 {
                    None
                } else {
                    within::<T>(quotient(a, b))
                },
                _ => None,
            },
    {
        proof {
            if let (Some(a), Some(b)) = (self@, rhs@) {
                Self::narrow_view(quotient(a, b));
            }
        }
        let f = |a: T, b: T| -> (s: Option<T>)
            ensures
                s == checked_quotient::<T>(a.as_int(), b.as_int()),
            { a.checked_div(&b) };
        self.infix(rhs, f)
    }
}

impl<T: CheckedRem> RemSpecImpl for Checked<T> {
    open spec fn obeys_rem_spec() -> bool {
        true
    }

    open spec fn rem_req(self, rhs: Self) -> bool {
        true
    }

    open spec fn rem_spec(self, rhs: Self) -> Self {
        self.remainder(rhs)
    }
}

impl<T: CheckedRem> core::ops::Rem for Checked<T> {
    type Output = Self;

    /// Checked remainder: absent where an operand is absent, the divisor is
    /// zero or the quotient does not fit `T`, otherwise the remainder, with
    /// the sign of the dividend.
    fn rem(self, rhs: Self) -> (r: Self)
        ensures
            r == self.remainder(rhs),
            self.0 is None || rhs.0 is None ==> r.0 is None,
            r@ == match (self@, rhs@) {
                (Some(a), Some(b)) => if b == 0 || !fits::<T>(quotient(a, b)) {
                    None
                } else {
                    within::<T>(remainder(a, b))
                },
                _ => None,
            },
    {
        proof {
            if let (Some(a), Some(b)) = (self@, rhs@) {
                Self::narrow_view(remainder(a, b));
            }
        }
        let f = |a: T, b: T| -> (s: Option<T>)
            ensures
                s == checked_remainder::<T>(a.as_int(), b.as_int()),
            { a.checked_rem(&b) };
        self.infix(rhs, f)
    }
}

} // verus!
