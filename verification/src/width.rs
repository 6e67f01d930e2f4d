//! Fixed-width integer types, modelled as intervals of the mathematical
//! integers.

use vstd::prelude::*;

verus! {

/// A numeric type whose values stand for the mathematical integers of one
/// interval, each integer of the interval for exactly one value.
///
/// The arithmetic contracts of this crate are stated over this model: an
/// operation succeeds exactly where its mathematical result lies between
/// `min_int()` and `max_int()`.
pub trait FixedWidth: Sized {
    /// The least integer that the type represents.
    spec fn min_int() -> int;

    /// The greatest integer that the type represents.
    spec fn max_int() -> int;

    /// The integer that a value stands for.
    spec fn as_int(&self) -> int;

    /// The value that stands for `v`; unspecified for `v` outside the
    /// type's interval.
    spec fn from_int(v: int) -> Self;

    /// Every value stands for an integer of the interval, and is found
    /// again from that integer.
    proof fn as_int_round_trip(&self)
        ensures
            Self::min_int() <= self.as_int() <= Self::max_int(),
            Self::from_int(self.as_int()) == *self,
    ;

    /// Every integer of the interval is the integer of its value.
    proof fn from_int_round_trip(v: int)
        requires
            Self::min_int() <= v <= Self::max_int(),
        ensures
            Self::from_int(v).as_int() == v,
    ;
}

/// Whether `v` is representable in `T`.
pub open spec fn fits<T: FixedWidth>(v: int) -> bool {
    T::min_int() <= v <= T::max_int()
}

/// The value of `T` that stands for `v`, where there is one.
pub open spec fn narrow<T: FixedWidth>(v: int) -> Option<T> {
    if fits::<T>(v) {
        Some(T::from_int(v))
    } else {
        None
    }
}

/// `v` itself where it is representable in `T`.
pub open spec fn within<T: FixedWidth>(v: int) -> Option<int> {
    if fits::<T>(v) {
        Some(v)
    } else {
        None
    }
}

impl FixedWidth for u8 {
    open spec fn min_int() -> int {
        0
    }

    open spec fn max_int() -> int {
        u8::MAX as int
    }

    open spec fn as_int(&self) -> int {
        *self as int
    }

    open spec fn from_int(v: int) -> Self {
        v as u8
    }

    proof fn as_int_round_trip(&self) {
    }

    proof fn from_int_round_trip(v: int) {
    }
}

impl FixedWidth for u16 {
    open spec fn min_int() -> int {
        0
    }

    open spec fn max_int() -> int {
        u16::MAX as int
    }

    open spec fn as_int(&self) -> int {
        *self as int
    }

    open spec fn from_int(v: int) -> Self {
        v as u16
    }

    proof fn as_int_round_trip(&self) {
    }

    proof fn from_int_round_trip(v: int) {
    }
}

impl FixedWidth for u32 {
    open spec fn min_int() -> int {
        0
    }

    open spec fn max_int() -> int {
        u32::MAX as int
    }

    open spec fn as_int(&self) -> int {
        *self as int
    }

    open spec fn from_int(v: int) -> Self {
        v as u32
    }

    proof fn as_int_round_trip(&self) {
    }

    proof fn from_int_round_trip(v: int) {
    }
}

impl FixedWidth for u64 {
    open spec fn min_int() -> int {
        0
    }

    open spec fn max_int() -> int {
        u64::MAX as int
    }

    open spec fn as_int(&self) -> int {
        *self as int
    }

    open spec fn from_int(v: int) -> Self {
        v as u64
    }

    proof fn as_int_round_trip(&self) {
    }

    proof fn from_int_round_trip(v: int) {
    }
}

impl FixedWidth for u128 {
    open spec fn min_int() -> int {
        0
    }

    open spec fn max_int() -> int {
        u128::MAX as int
    }

    open spec fn as_int(&self) -> int {
        *self as int
    }

    open spec fn from_int(v: int) -> Self {
        v as u128
    }

    proof fn as_int_round_trip(&self) {
    }

    proof fn from_int_round_trip(v: int) {
    }
}

impl FixedWidth for usize {
    open spec fn min_int() -> int {
        0
    }

    open spec fn max_int() -> int {
        usize::MAX as int
    }

    open spec fn as_int(&self) -> int {
        *self as int
    }

    open spec fn from_int(v: int) -> Self {
        v as usize
    }

    proof fn as_int_round_trip(&self) {
    }

    proof fn from_int_round_trip(v: int) {
    }
}

impl FixedWidth for i8 {
    open spec fn min_int() -> int {
        i8::MIN as int
    }

    open spec fn max_int() -> int {
        i8::MAX as int
    }

    open spec fn as_int(&self) -> int {
        *self as int
    }

    open spec fn from_int(v: int) -> Self {
        v as i8
    }

    proof fn as_int_round_trip(&self) {
    }

    proof fn from_int_round_trip(v: int) {
    }
}

impl FixedWidth for i16 {
    open spec fn min_int() -> int {
        i16::MIN as int
    }

    open spec fn max_int() -> int {
        i16::MAX as int
    }

    open spec fn as_int(&self) -> int {
        *self as int
    }

    open spec fn from_int(v: int) -> Self {
        v as i16
    }

    proof fn as_int_round_trip(&self) {
    }

    proof fn from_int_round_trip(v: int) {
    }
}

impl FixedWidth for i32 {
    open spec fn min_int() -> int {
        i32::MIN as int
    }

    open spec fn max_int() -> int {
        i32::MAX as int
    }

    open spec fn as_int(&self) -> int {
        *self as int
    }

    open spec fn from_int(v: int) -> Self {
        v as i32
    }

    proof fn as_int_round_trip(&self) {
    }

    proof fn from_int_round_trip(v: int) {
    }
}

impl FixedWidth for i64 {
    open spec fn min_int() -> int {
        i64::MIN as int
    }

    open spec fn max_int() -> int {
        i64::MAX as int
    }

    open spec fn as_int(&self) -> int {
        *self as int
    }

    open spec fn from_int(v: int) -> Self {
        v as i64
    }

    proof fn as_int_round_trip(&self) {
    }

    proof fn from_int_round_trip(v: int) {
    }
}

impl FixedWidth for i128 {
    open spec fn min_int() -> int {
        i128::MIN as int
    }

    open spec fn max_int() -> int {
        i128::MAX as int
    }

    open spec fn as_int(&self) -> int {
        *self as int
    }

    open spec fn from_int(v: int) -> Self {
        v as i128
    }

    proof fn as_int_round_trip(&self) {
    }

    proof fn from_int_round_trip(v: int) {
    }
}

impl FixedWidth for isize {
    open spec fn min_int() -> int {
        isize::MIN as int
    }

    open spec fn max_int() -> int {
        isize::MAX as int
    }

    open spec fn as_int(&self) -> int {
        *self as int
    }

    open spec fn from_int(v: int) -> Self {
        v as isize
    }

    proof fn as_int_round_trip(&self) {
    }

    proof fn from_int_round_trip(v: int) {
    }
}

} // verus!
