//! Checked subtraction on the fixed-width integer types.
//!
//! The arithmetic itself is the `num` crate's. Each private `num_checked_sub_*`
//! function calls that crate's implementation for one type; its contract
//! restates what the implementation returns and is believed, not proved. The
//! trait implementations are proved from those contracts.

use vstd::prelude::*;
use crate::width::{narrow, FixedWidth};

verus! {

/// Subtraction that reports a difference it cannot represent instead of
/// wrapping.
pub trait CheckedSub: FixedWidth {
    /// The difference of `self` and `v`, or `None` where it does not fit the
    /// type.
    fn checked_sub(&self, v: &Self) -> (r: Option<Self>)
        ensures
            r == narrow::<Self>(self.as_int() - v.as_int()),
    ;
}

/// `num::CheckedSub::checked_sub` on `u8`: the difference where it is not
/// negative, `None` otherwise.
#[verifier::external_body]
fn num_checked_sub_u8(a: u8, b: u8) -> (r: Option<u8>)
    ensures
        r == (if a - b >= 0 {
            Some((a - b) as u8)
        } else {
            None
        }),
{
    num::CheckedSub::checked_sub(&a, &b)
}

impl CheckedSub for u8 {
    fn checked_sub(&self, v: &Self) -> (r: Option<Self>) {
        num_checked_sub_u8(*self, *v)
    }
}

/// `num::CheckedSub::checked_sub` on `u16`: the difference where it is not
/// negative, `None` otherwise.
#[verifier::external_body]
fn num_checked_sub_u16(a: u16, b: u16) -> (r: Option<u16>)
    ensures
        r == (if a - b >= 0 {
            Some((a - b) as u16)
        } else {
            None
        }),
{
    num::CheckedSub::checked_sub(&a, &b)
}

impl CheckedSub for u16 {
    fn checked_sub(&self, v: &Self) -> (r: Option<Self>) {
        num_checked_sub_u16(*self, *v)
    }
}

/// `num::CheckedSub::checked_sub` on `u32`: the difference where it is not
/// negative, `None` otherwise.
#[verifier::external_body]
fn num_checked_sub_u32(a: u32, b: u32) -> (r: Option<u32>)
    ensures
        r == (if a - b >= 0 {
            Some((a - b) as u32)
        } else {
            None
        }),
{
    num::CheckedSub::checked_sub(&a, &b)
}

impl CheckedSub for u32 {
    fn checked_sub(&self, v: &Self) -> (r: Option<Self>) {
        num_checked_sub_u32(*self, *v)
    }
}

/// `num::CheckedSub::checked_sub` on `u64`: the difference where it is not
/// negative, `None` otherwise.
#[verifier::external_body]
fn num_checked_sub_u64(a: u64, b: u64) -> (r: Option<u64>)
    ensures
        r == (if a - b >= 0 {
            Some((a - b) as u64)
        } else {
            None
        }),
{
    num::CheckedSub::checked_sub(&a, &b)
}

impl CheckedSub for u64 {
    fn checked_sub(&self, v: &Self) -> (r: Option<Self>) {
        num_checked_sub_u64(*self, *v)
    }
}

/// `num::CheckedSub::checked_sub` on `u128`: the difference where it is not
/// negative, `None` otherwise.
#[verifier::external_body]
fn num_checked_sub_u128(a: u128, b: u128) -> (r: Option<u128>)
    ensures
        r == (if a - b >= 0 {
            Some((a - b) as u128)
        } else {
            None
        }),
{
    num::CheckedSub::checked_sub(&a, &b)
}

impl CheckedSub for u128 {
    fn checked_sub(&self, v: &Self) -> (r: Option<Self>) {
        num_checked_sub_u128(*self, *v)
    }
}

/// `num::CheckedSub::checked_sub` on `usize`: the difference where it is not
/// negative, `None` otherwise.
#[verifier::external_body]
fn num_checked_sub_usize(a: usize, b: usize) -> (r: Option<usize>)
    ensures
        r == (if a - b >= 0 {
            Some((a - b) as usize)
        } else {
            None
        }),
{
    num::CheckedSub::checked_sub(&a, &b)
}

impl CheckedSub for usize {
    fn checked_sub(&self, v: &Self) -> (r: Option<Self>) {
        num_checked_sub_usize(*self, *v)
    }
}

/// `num::CheckedSub::checked_sub` on `i8`: the difference where it lies between
/// `i8::MIN` and `i8::MAX`, `None` otherwise.
#[verifier::external_body]
fn num_checked_sub_i8(a: i8, b: i8) -> (r: Option<i8>)
    ensures
        r == (if i8::MIN <= a - b <= i8::MAX {
            Some((a - b) as i8)
        } else {
            None
        }),
{
    num::CheckedSub::checked_sub(&a, &b)
}

impl CheckedSub for i8 {
    fn checked_sub(&self, v: &Self) -> (r: Option<Self>) {
        num_checked_sub_i8(*self, *v)
    }
}

/// `num::CheckedSub::checked_sub` on `i16`: the difference where it lies between
/// `i16::MIN` and `i16::MAX`, `None` otherwise.
#[verifier::external_body]
fn num_checked_sub_i16(a: i16, b: i16) -> (r: Option<i16>)
    ensures
        r == (if i16::MIN <= a - b <= i16::MAX {
            Some((a - b) as i16)
        } else {
            None
        }),
{
    num::CheckedSub::checked_sub(&a, &b)
}

impl CheckedSub for i16 {
    fn checked_sub(&self, v: &Self) -> (r: Option<Self>) {
        num_checked_sub_i16(*self, *v)
    }
}

/// `num::CheckedSub::checked_sub` on `i32`: the difference where it lies between
/// `i32::MIN` and `i32::MAX`, `None` otherwise.
#[verifier::external_body]
fn num_checked_sub_i32(a: i32, b: i32) -> (r: Option<i32>)
    ensures
        r == (if i32::MIN <= a - b <= i32::MAX {
            Some((a - b) as i32)
        } else {
            None
        }),
{
    num::CheckedSub::checked_sub(&a, &b)
}

impl CheckedSub for i32 {
    fn checked_sub(&self, v: &Self) -> (r: Option<Self>) {
        num_checked_sub_i32(*self, *v)
    }
}

/// `num::CheckedSub::checked_sub` on `i64`: the difference where it lies between
/// `i64::MIN` and `i64::MAX`, `None` otherwise.
#[verifier::external_body]
fn num_checked_sub_i64(a: i64, b: i64) -> (r: Option<i64>)
    ensures
        r == (if i64::MIN <= a - b <= i64::MAX {
            Some((a - b) as i64)
        } else {
            None
        }),
{
    num::CheckedSub::checked_sub(&a, &b)
}

impl CheckedSub for i64 {
    fn checked_sub(&self, v: &Self) -> (r: Option<Self>) {
        num_checked_sub_i64(*self, *v)
    }
}

/// `num::CheckedSub::checked_sub` on `i128`: the difference where it lies between
/// `i128::MIN` and `i128::MAX`, `None` otherwise.
#[verifier::external_body]
fn num_checked_sub_i128(a: i128, b: i128) -> (r: Option<i128>)
    ensures
        r == (if i128::MIN <= a - b <= i128::MAX {
            Some((a - b) as i128)
        } else {
            None
        }),
{
    num::CheckedSub::checked_sub(&a, &b)
}

impl CheckedSub for i128 {
    fn checked_sub(&self, v: &Self) -> (r: Option<Self>) {
        num_checked_sub_i128(*self, *v)
    }
}

/// `num::CheckedSub::checked_sub` on `isize`: the difference where it lies between
/// `isize::MIN` and `isize::MAX`, `None` otherwise.
#[verifier::external_body]
fn num_checked_sub_isize(a: isize, b: isize) -> (r: Option<isize>)
    ensures
        r == (if isize::MIN <= a - b <= isize::MAX {
            Some((a - b) as isize)
        } else {
            None
        }),
{
    num::CheckedSub::checked_sub(&a, &b)
}

impl CheckedSub for isize {
    fn checked_sub(&self, v: &Self) -> (r: Option<Self>) {
        num_checked_sub_isize(*self, *v)
    }
}

} // verus!
