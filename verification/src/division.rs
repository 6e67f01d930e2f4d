//! Checked division and remainder on the fixed-width integer types.
//!
//! The arithmetic itself is the `num` crate's. Each private
//! `num_checked_div_*` and `num_checked_rem_*` function calls that crate's
//! implementation for one type; its contract restates what the
//! implementation returns and is believed, not proved. The trait
//! implementations are proved from those contracts.

use vstd::prelude::*;
use crate::width::{fits, narrow, FixedWidth};

verus! {

/// The absolute value of `v`.
pub open spec fn magnitude(v: int) -> int {
    if v < 0 {
        -v
    } else {
        v
    }
}

/// The quotient of `a` by `b`, rounded towards zero. Meaningful for a
/// non-zero `b`.
pub open spec fn quotient(a: int, b: int) -> int
    recommends
        b != 0,
{
    if (a < 0) == (b < 0) {
        magnitude(a) / magnitude(b)
    } else {
        -(magnitude(a) / magnitude(b))
    }
}

/// What is left of `a` after `quotient(a, b)` times `b` is taken out of it:
/// it has the sign of `a` and a magnitude below that of `b`. Meaningful for
/// a non-zero `b`.
pub open spec fn remainder(a: int, b: int) -> int
    recommends
        b != 0,
{
    if a < 0 {
        -(magnitude(a) % magnitude(b))
    } else {
        magnitude(a) % magnitude(b)
    }
}

/// Truncated division splits the dividend: `quotient` times the divisor
/// and `remainder` add up to it, and the remainder has the sign of the
/// dividend and is smaller in magnitude than the divisor. The quotient is
/// no larger in magnitude than the dividend, and smaller unless the divisor
/// is `1` or `-1` or the dividend zero.
pub proof fn quotient_remainder_bounds(a: int, b: int)
    requires
        b != 0,
    ensures
        a == b * quotient(a, b) + remainder(a, b),
        magnitude(remainder(a, b)) < magnitude(b),
        a >= 0 ==> remainder(a, b) >= 0,
        a <= 0 ==> remainder(a, b) <= 0,
        magnitude(quotient(a, b)) <= magnitude(a),
        magnitude(b) > 1 && a != 0 ==> magnitude(quotient(a, b)) < magnitude(a),
        b == 1 ==> quotient(a, b) == a,
        b == -1 ==> quotient(a, b) == -a,
{
    let x = magnitude(a);
    let d = magnitude(b);
    assert({
        &&& 0 <= x / d <= x
        &&& 0 <= x % d < d
        &&& x == d * (x / d) + x % d
        &&& d > 1 && x > 0 ==> x / d < x
        &&& d == 1 ==> x / d == x
    }) by (nonlinear_arith)
        requires
            x >= 0,
            d >= 1,
    ;
    assert(a == b * quotient(a, b) + remainder(a, b)) by (nonlinear_arith)
        requires
            x == d * (x / d) + x % d,
            x == magnitude(a),
            d == magnitude(b),
            b != 0,
    ;
}

/// The quotient as a value of `T`: `None` for a zero divisor and for a
/// quotient that does not fit.
pub open spec fn checked_quotient<T: FixedWidth>(a: int, b: int) -> Option<T> {
    if b == 0 {
        None
    } else {
        narrow::<T>(quotient(a, b))
    }
}

/// The remainder as a value of `T`: `None` for a zero divisor, where the
/// quotient does not fit, and for a remainder that does not fit.
pub open spec fn checked_remainder<T: FixedWidth>(a: int, b: int) -> Option<T> {
    if b == 0 || !fits::<T>(quotient(a, b)) {
        None
    } else {
        narrow::<T>(remainder(a, b))
    }
}

/// Division that reports a zero divisor or a quotient it cannot represent
/// instead of panicking.
pub trait CheckedDiv: FixedWidth {
    /// The quotient of `self` by `v`, rounded towards zero, or `None` where
    /// `v` is zero or the quotient does not fit the type.
    fn checked_div(&self, v: &Self) -> (r: Option<Self>)
        ensures
            r == checked_quotient::<Self>(self.as_int(), v.as_int()),
    ;
}

/// Remainder that reports a zero divisor or a division it cannot represent
/// instead of panicking.
pub trait CheckedRem: FixedWidth {
    /// The remainder of `self` divided by `v`, with the sign of `self`, or
    /// `None` where `v` is zero or the quotient does not fit the type.
    fn checked_rem(&self, v: &Self) -> (r: Option<Self>)
        ensures
            r == checked_remainder::<Self>(self.as_int(), v.as_int()),
    ;
}

/// `num::CheckedDiv::checked_div` on `u8`: the quotient for a non-zero
/// divisor, `None` for zero.
#[verifier::external_body]
fn num_checked_div_u8(a: u8, b: u8) -> (r: Option<u8>)
    ensures
        r == (if b != 0 {
            Some((a / b) as u8)
        } else {
            None
        }),
{
    num::CheckedDiv::checked_div(&a, &b)
}

impl CheckedDiv for u8 {
    fn checked_div(&self, v: &Self) -> (r: Option<Self>) {
        num_checked_div_u8(*self, *v)
    }
}

/// `num::traits::CheckedRem::checked_rem` on `u8`: the remainder for a
/// non-zero divisor, `None` for zero.
#[verifier::external_body]
fn num_checked_rem_u8(a: u8, b: u8) -> (r: Option<u8>)
    ensures
        r == (if b != 0 {
            Some((a % b) as u8)
        } else {
            None
        }),
{
    num::traits::CheckedRem::checked_rem(&a, &b)
}

impl CheckedRem for u8 {
    fn checked_rem(&self, v: &Self) -> (r: Option<Self>) {
        num_checked_rem_u8(*self, *v)
    }
}

/// `num::CheckedDiv::checked_div` on `u16`: the quotient for a non-zero
/// divisor, `None` for zero.
#[verifier::external_body]
fn num_checked_div_u16(a: u16, b: u16) -> (r: Option<u16>)
    ensures
        r == (if b != 0 {
            Some((a / b) as u16)
        } else {
            None
        }),
{
    num::CheckedDiv::checked_div(&a, &b)
}

impl CheckedDiv for u16 {
    fn checked_div(&self, v: &Self) -> (r: Option<Self>) {
        num_checked_div_u16(*self, *v)
    }
}

/// `num::traits::CheckedRem::checked_rem` on `u16`: the remainder for a
/// non-zero divisor, `None` for zero.
#[verifier::external_body]
fn num_checked_rem_u16(a: u16, b: u16) -> (r: Option<u16>)
    ensures
        r == (if b != 0 {
            Some((a % b) as u16)
        } else {
            None
        }),
{
    num::traits::CheckedRem::checked_rem(&a, &b)
}

impl CheckedRem for u16 {
    fn checked_rem(&self, v: &Self) -> (r: Option<Self>) {
        num_checked_rem_u16(*self, *v)
    }
}

/// `num::CheckedDiv::checked_div` on `u32`: the quotient for a non-zero
/// divisor, `None` for zero.
#[verifier::external_body]
fn num_checked_div_u32(a: u32, b: u32) -> (r: Option<u32>)
    ensures
        r == (if b != 0 {
            Some((a / b) as u32)
        } else {
            None
        }),
{
    num::CheckedDiv::checked_div(&a, &b)
}

impl CheckedDiv for u32 {
    fn checked_div(&self, v: &Self) -> (r: Option<Self>) {
        num_checked_div_u32(*self, *v)
    }
}

/// `num::traits::CheckedRem::checked_rem` on `u32`: the remainder for a
/// non-zero divisor, `None` for zero.
#[verifier::external_body]
fn num_checked_rem_u32(a: u32, b: u32) -> (r: Option<u32>)
    ensures
        r == (if b != 0 {
            Some((a % b) as u32)
        } else {
            None
        }),
{
    num::traits::CheckedRem::checked_rem(&a, &b)
}

impl CheckedRem for u32 {
    fn checked_rem(&self, v: &Self) -> (r: Option<Self>) {
        num_checked_rem_u32(*self, *v)
    }
}

/// `num::CheckedDiv::checked_div` on `u64`: the quotient for a non-zero
/// divisor, `None` for zero.
#[verifier::external_body]
fn num_checked_div_u64(a: u64, b: u64) -> (r: Option<u64>)
    ensures
        r == (if b != 0 {
            Some((a / b) as u64)
        } else {
            None
        }),
{
    num::CheckedDiv::checked_div(&a, &b)
}

impl CheckedDiv for u64 {
    fn checked_div(&self, v: &Self) -> (r: Option<Self>) {
        num_checked_div_u64(*self, *v)
    }
}

/// `num::traits::CheckedRem::checked_rem` on `u64`: the remainder for a
/// non-zero divisor, `None` for zero.
#[verifier::external_body]
fn num_checked_rem_u64(a: u64, b: u64) -> (r: Option<u64>)
    ensures
        r == (if b != 0 {
            Some((a % b) as u64)
        } else {
            None
        }),
{
    num::traits::CheckedRem::checked_rem(&a, &b)
}

impl CheckedRem for u64 {
    fn checked_rem(&self, v: &Self) -> (r: Option<Self>) {
        num_checked_rem_u64(*self, *v)
    }
}

/// `num::CheckedDiv::checked_div` on `u128`: the quotient for a non-zero
/// divisor, `None` for zero.
#[verifier::external_body]
fn num_checked_div_u128(a: u128, b: u128) -> (r: Option<u128>)
    ensures
        r == (if b != 0 {
            Some((a / b) as u128)
        } else {
            None
        }),
{
    num::CheckedDiv::checked_div(&a, &b)
}

impl CheckedDiv for u128 {
    fn checked_div(&self, v: &Self) -> (r: Option<Self>) {
        num_checked_div_u128(*self, *v)
    }
}

/// `num::traits::CheckedRem::checked_rem` on `u128`: the remainder for a
/// non-zero divisor, `None` for zero.
#[verifier::external_body]
fn num_checked_rem_u128(a: u128, b: u128) -> (r: Option<u128>)
    ensures
        r == (if b != 0 {
            Some((a % b) as u128)
        } else {
            None
        }),
{
    num::traits::CheckedRem::checked_rem(&a, &b)
}

impl CheckedRem for u128 {
    fn checked_rem(&self, v: &Self) -> (r: Option<Self>) {
        num_checked_rem_u128(*self, *v)
    }
}

/// `num::CheckedDiv::checked_div` on `usize`: the quotient for a non-zero
/// divisor, `None` for zero.
#[verifier::external_body]
fn num_checked_div_usize(a: usize, b: usize) -> (r: Option<usize>)
    ensures
        r == (if b != 0 {
            Some((a / b) as usize)
        } else {
            None
        }),
{
    num::CheckedDiv::checked_div(&a, &b)
}

impl CheckedDiv for usize {
    fn checked_div(&self, v: &Self) -> (r: Option<Self>) {
        num_checked_div_usize(*self, *v)
    }
}

/// `num::traits::CheckedRem::checked_rem` on `usize`: the remainder for a
/// non-zero divisor, `None` for zero.
#[verifier::external_body]
fn num_checked_rem_usize(a: usize, b: usize) -> (r: Option<usize>)
    ensures
        r == (if b != 0 {
            Some((a % b) as usize)
        } else {
            None
        }),
{
    num::traits::CheckedRem::checked_rem(&a, &b)
}

impl CheckedRem for usize {
    fn checked_rem(&self, v: &Self) -> (r: Option<Self>) {
        num_checked_rem_usize(*self, *v)
    }
}

/// `num::CheckedDiv::checked_div` on `i8`: the quotient rounded towards
/// zero, `None` for a zero divisor and for `i8::MIN` divided by `-1`.
#[verifier::external_body]
fn num_checked_div_i8(a: i8, b: i8) -> (r: Option<i8>)
    ensures
        r == (if b == 0 || (a == i8::MIN && b == -1) {
            None
        } else {
            Some(quotient(a as int, b as int) as i8)
        }),
{
    num::CheckedDiv::checked_div(&a, &b)
}

impl CheckedDiv for i8 {
    fn checked_div(&self, v: &Self) -> (r: Option<Self>) {
        proof {
            if *v != 0 {
                quotient_remainder_bounds(*self as int, *v as int);
            }
        }
        num_checked_div_i8(*self, *v)
    }
}

/// `num::traits::CheckedRem::checked_rem` on `i8`: the remainder with the
/// sign of the dividend, `None` for a zero divisor and for `i8::MIN`
/// divided by `-1`.
#[verifier::external_body]
fn num_checked_rem_i8(a: i8, b: i8) -> (r: Option<i8>)
    ensures
        r == (if b == 0 || (a == i8::MIN && b == -1) {
            None
        } else {
            Some(remainder(a as int, b as int) as i8)
        }),
{
    num::traits::CheckedRem::checked_rem(&a, &b)
}

impl CheckedRem for i8 {
    fn checked_rem(&self, v: &Self) -> (r: Option<Self>) {
        proof {
            if *v != 0 {
                quotient_remainder_bounds(*self as int, *v as int);
            }
        }
        num_checked_rem_i8(*self, *v)
    }
}

/// `num::CheckedDiv::checked_div` on `i16`: the quotient rounded towards
/// zero, `None` for a zero divisor and for `i16::MIN` divided by `-1`.
#[verifier::external_body]
fn num_checked_div_i16(a: i16, b: i16) -> (r: Option<i16>)
    ensures
        r == (if b == 0 || (a == i16::MIN && b == -1) {
            None
        } else {
            Some(quotient(a as int, b as int) as i16)
        }),
{
    num::CheckedDiv::checked_div(&a, &b)
}

impl CheckedDiv for i16 {
    fn checked_div(&self, v: &Self) -> (r: Option<Self>) {
        proof {
            if *v != 0 {
                quotient_remainder_bounds(*self as int, *v as int);
            }
        }
        num_checked_div_i16(*self, *v)
    }
}

/// `num::traits::CheckedRem::checked_rem` on `i16`: the remainder with the
/// sign of the dividend, `None` for a zero divisor and for `i16::MIN`
/// divided by `-1`.
#[verifier::external_body]
fn num_checked_rem_i16(a: i16, b: i16) -> (r: Option<i16>)
    ensures
        r == (if b == 0 || (a == i16::MIN && b == -1) {
            None
        } else {
            Some(remainder(a as int, b as int) as i16)
        }),
{
    num::traits::CheckedRem::checked_rem(&a, &b)
}

impl CheckedRem for i16 {
    fn checked_rem(&self, v: &Self) -> (r: Option<Self>) {
        proof {
            if *v != 0 {
                quotient_remainder_bounds(*self as int, *v as int);
            }
        }
        num_checked_rem_i16(*self, *v)
    }
}

/// `num::CheckedDiv::checked_div` on `i32`: the quotient rounded towards
/// zero, `None` for a zero divisor and for `i32::MIN` divided by `-1`.
#[verifier::external_body]
fn num_checked_div_i32(a: i32, b: i32) -> (r: Option<i32>)
    ensures
        r == (if b == 0 || (a == i32::MIN && b == -1) {
            None
        } else {
            Some(quotient(a as int, b as int) as i32)
        }),
{
    num::CheckedDiv::checked_div(&a, &b)
}

impl CheckedDiv for i32 {
    fn checked_div(&self, v: &Self) -> (r: Option<Self>) {
        proof {
            if *v != 0 {
                quotient_remainder_bounds(*self as int, *v as int);
            }
        }
        num_checked_div_i32(*self, *v)
    }
}

/// `num::traits::CheckedRem::checked_rem` on `i32`: the remainder with the
/// sign of the dividend, `None` for a zero divisor and for `i32::MIN`
/// divided by `-1`.
#[verifier::external_body]
fn num_checked_rem_i32(a: i32, b: i32) -> (r: Option<i32>)
    ensures
        r == (if b == 0 || (a == i32::MIN && b == -1) {
            None
        } else {
            Some(remainder(a as int, b as int) as i32)
        }),
{
    num::traits::CheckedRem::checked_rem(&a, &b)
}

impl CheckedRem for i32 {
    fn checked_rem(&self, v: &Self) -> (r: Option<Self>) {
        proof {
            if *v != 0 {
                quotient_remainder_bounds(*self as int, *v as int);
            }
        }
        num_checked_rem_i32(*self, *v)
    }
}

/// `num::CheckedDiv::checked_div` on `i64`: the quotient rounded towards
/// zero, `None` for a zero divisor and for `i64::MIN` divided by `-1`.
#[verifier::external_body]
fn num_checked_div_i64(a: i64, b: i64) -> (r: Option<i64>)
    ensures
        r == (if b == 0 || (a == i64::MIN && b == -1) {
            None
        } else {
            Some(quotient(a as int, b as int) as i64)
        }),
{
    num::CheckedDiv::checked_div(&a, &b)
}

impl CheckedDiv for i64 {
    fn checked_div(&self, v: &Self) -> (r: Option<Self>) {
        proof {
            if *v != 0 {
                quotient_remainder_bounds(*self as int, *v as int);
            }
        }
        num_checked_div_i64(*self, *v)
    }
}

/// `num::traits::CheckedRem::checked_rem` on `i64`: the remainder with the
/// sign of the dividend, `None` for a zero divisor and for `i64::MIN`
/// divided by `-1`.
#[verifier::external_body]
fn num_checked_rem_i64(a: i64, b: i64) -> (r: Option<i64>)
    ensures
        r == (if b == 0 || (a == i64::MIN && b == -1) {
            None
        } else {
            Some(remainder(a as int, b as int) as i64)
        }),
{
    num::traits::CheckedRem::checked_rem(&a, &b)
}

impl CheckedRem for i64 {
    fn checked_rem(&self, v: &Self) -> (r: Option<Self>) {
        proof {
            if *v != 0 {
                quotient_remainder_bounds(*self as int, *v as int);
            }
        }
        num_checked_rem_i64(*self, *v)
    }
}

/// `num::CheckedDiv::checked_div` on `i128`: the quotient rounded towards
/// zero, `None` for a zero divisor and for `i128::MIN` divided by `-1`.
#[verifier::external_body]
fn num_checked_div_i128(a: i128, b: i128) -> (r: Option<i128>)
    ensures
        r == (if b == 0 || (a == i128::MIN && b == -1) {
            None
        } else {
            Some(quotient(a as int, b as int) as i128)
        }),
{
    num::CheckedDiv::checked_div(&a, &b)
}

impl CheckedDiv for i128 {
    fn checked_div(&self, v: &Self) -> (r: Option<Self>) {
        proof {
            if *v != 0 {
                quotient_remainder_bounds(*self as int, *v as int);
            }
        }
        num_checked_div_i128(*self, *v)
    }
}

/// `num::traits::CheckedRem::checked_rem` on `i128`: the remainder with the
/// sign of the dividend, `None` for a zero divisor and for `i128::MIN`
/// divided by `-1`.
#[verifier::external_body]
fn num_checked_rem_i128(a: i128, b: i128) -> (r: Option<i128>)
    ensures
        r == (if b == 0 || (a == i128::MIN && b == -1) {
            None
        } else {
            Some(remainder(a as int, b as int) as i128)
        }),
{
    num::traits::CheckedRem::checked_rem(&a, &b)
}

impl CheckedRem for i128 {
    fn checked_rem(&self, v: &Self) -> (r: Option<Self>) {
        proof {
            if *v != 0 {
                quotient_remainder_bounds(*self as int, *v as int);
            }
        }
        num_checked_rem_i128(*self, *v)
    }
}

/// `num::CheckedDiv::checked_div` on `isize`: the quotient rounded towards
/// zero, `None` for a zero divisor and for `isize::MIN` divided by `-1`.
#[verifier::external_body]
fn num_checked_div_isize(a: isize, b: isize) -> (r: Option<isize>)
    ensures
        r == (if b == 0 || (a == isize::MIN && b == -1) {
            None
        } else {
            Some(quotient(a as int, b as int) as isize)
        }),
{
    num::CheckedDiv::checked_div(&a, &b)
}

impl CheckedDiv for isize {
    fn checked_div(&self, v: &Self) -> (r: Option<Self>) {
        proof {
            if *v != 0 {
                quotient_remainder_bounds(*self as int, *v as int);
            }
        }
        num_checked_div_isize(*self, *v)
    }
}

/// `num::traits::CheckedRem::checked_rem` on `isize`: the remainder with the
/// sign of the dividend, `None` for a zero divisor and for `isize::MIN`
/// divided by `-1`.
#[verifier::external_body]
fn num_checked_rem_isize(a: isize, b: isize) -> (r: Option<isize>)
    ensures
        r == (if b == 0 || (a == isize::MIN && b == -1) {
            None
        } else {
            Some(remainder(a as int, b as int) as isize)
        }),
{
    num::traits::CheckedRem::checked_rem(&a, &b)
}

impl CheckedRem for isize {
    fn checked_rem(&self, v: &Self) -> (r: Option<Self>) {
        proof {
            if *v != 0 {
                quotient_remainder_bounds(*self as int, *v as int);
            }
        }
        num_checked_rem_isize(*self, *v)
    }
}

} // verus!
