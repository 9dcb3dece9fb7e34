//! Additional capabilities of a type that are not directly tied to
//! conversions, but that the unwrap helpers of `errors` draw on.

use crate::float::{infinity, quiet_nan, F32, F64};
use vstd::arithmetic::power2::{lemma2_to64, lemma2_to64_rest};
use vstd::prelude::*;

verus! {

/// Values of the type can be logically "saturated": it has a greatest and a
/// least value.
///
/// This is used by `errors::UnwrapOrSaturate`.
pub trait Saturated: Sized {
    /// The type's saturated, maximum value.
    spec fn saturated_max_spec() -> Self;

    /// The type's saturated, minimum value.
    spec fn saturated_min_spec() -> Self;

    /// Returns the type's saturated, maximum value.
    fn saturated_max() -> (r: Self)
        ensures
            r == Self::saturated_max_spec(),
    ;

    /// Returns the type's saturated, minimum value.
    fn saturated_min() -> (r: Self)
        ensures
            r == Self::saturated_min_spec(),
    ;
}

/// The type has an "invalid" sentinel value.
///
/// This is used by `errors::UnwrapOrInvalid`.
pub trait InvalidSentinel: Sized {
    /// The type's "invalid" sentinel value.
    spec fn invalid_sentinel_spec() -> Self;

    /// Returns the type's "invalid" sentinel value.
    fn invalid_sentinel() -> (r: Self)
        ensures
            r == Self::invalid_sentinel_spec(),
    ;
}

/// The type has positive and negative "infinity" values.
///
/// This is used by `errors::UnwrapOrInf`.
pub trait SignedInfinity: Sized {
    /// The type's negative infinity value.
    spec fn neg_infinity_spec() -> Self;

    /// The type's positive infinity value.
    spec fn pos_infinity_spec() -> Self;

    /// Returns the type's negative infinity value.
    fn neg_infinity() -> (r: Self)
        ensures
            r == Self::neg_infinity_spec(),
    ;

    /// Returns the type's positive infinity value.
    fn pos_infinity() -> (r: Self)
        ensures
            r == Self::pos_infinity_spec(),
    ;
}

impl Saturated for i8 {
    open spec fn saturated_max_spec() -> i8 {
        i8::MAX
    }

    open spec fn saturated_min_spec() -> i8 {
        i8::MIN
    }

    fn saturated_max() -> (r: i8) {
        i8::MAX
    }

    fn saturated_min() -> (r: i8) {
        i8::MIN
    }
}

impl Saturated for i16 {
    open spec fn saturated_max_spec() -> i16 {
        i16::MAX
    }

    open spec fn saturated_min_spec() -> i16 {
        i16::MIN
    }

    fn saturated_max() -> (r: i16) {
        i16::MAX
    }

    fn saturated_min() -> (r: i16) {
        i16::MIN
    }
}

impl Saturated for i32 {
    open spec fn saturated_max_spec() -> i32 {
        i32::MAX
    }

    open spec fn saturated_min_spec() -> i32 {
        i32::MIN
    }

    fn saturated_max() -> (r: i32) {
        i32::MAX
    }

    fn saturated_min() -> (r: i32) {
        i32::MIN
    }
}

impl Saturated for i64 {
    open spec fn saturated_max_spec() -> i64 {
        i64::MAX
    }

    open spec fn saturated_min_spec() -> i64 {
        i64::MIN
    }

    fn saturated_max() -> (r: i64) {
        i64::MAX
    }

    fn saturated_min() -> (r: i64) {
        i64::MIN
    }
}

impl Saturated for isize {
    open spec fn saturated_max_spec() -> isize {
        isize::MAX
    }

    open spec fn saturated_min_spec() -> isize {
        isize::MIN
    }

    fn saturated_max() -> (r: isize) {
        isize::MAX
    }

    fn saturated_min() -> (r: isize) {
        isize::MIN
    }
}

impl Saturated for u8 {
    open spec fn saturated_max_spec() -> u8 {
        u8::MAX
    }

    open spec fn saturated_min_spec() -> u8 {
        u8::MIN
    }

    fn saturated_max() -> (r: u8) {
        u8::MAX
    }

    fn saturated_min() -> (r: u8) {
        u8::MIN
    }
}

impl Saturated for u16 {
    open spec fn saturated_max_spec() -> u16 {
        u16::MAX
    }

    open spec fn saturated_min_spec() -> u16 {
        u16::MIN
    }

    fn saturated_max() -> (r: u16) {
        u16::MAX
    }

    fn saturated_min() -> (r: u16) {
        u16::MIN
    }
}

impl Saturated for u32 {
    open spec fn saturated_max_spec() -> u32 {
        u32::MAX
    }

    open spec fn saturated_min_spec() -> u32 {
        u32::MIN
    }

    fn saturated_max() -> (r: u32) {
        u32::MAX
    }

    fn saturated_min() -> (r: u32) {
        u32::MIN
    }
}

impl Saturated for u64 {
    open spec fn saturated_max_spec() -> u64 {
        u64::MAX
    }

    open spec fn saturated_min_spec() -> u64 {
        u64::MIN
    }

    fn saturated_max() -> (r: u64) {
        u64::MAX
    }

    fn saturated_min() -> (r: u64) {
        u64::MIN
    }
}

impl Saturated for usize {
    open spec fn saturated_max_spec() -> usize {
        usize::MAX
    }

    open spec fn saturated_min_spec() -> usize {
        usize::MIN
    }

    fn saturated_max() -> (r: usize) {
        usize::MAX
    }

    fn saturated_min() -> (r: usize) {
        usize::MIN
    }
}

impl SignedInfinity for F32 {
    open spec fn neg_infinity_spec() -> F32 {
        infinity::<F32>(true)
    }

    open spec fn pos_infinity_spec() -> F32 {
        infinity::<F32>(false)
    }

    fn neg_infinity() -> (r: F32) {
        F32(0xFF80_0000)
    }

    fn pos_infinity() -> (r: F32) {
        F32(0x7F80_0000)
    }
}

/// The sentinel of a floating point format is the value that is not a number,
/// in its usual quiet form.
impl InvalidSentinel for F32 {
    open spec fn invalid_sentinel_spec() -> F32 {
        quiet_nan::<F32>(false)
    }

    fn invalid_sentinel() -> (r: F32) {
        proof {
            lemma2_to64();
            lemma2_to64_rest();
        }
        F32(0x7FC0_0000)
    }
}

impl SignedInfinity for F64 {
    open spec fn neg_infinity_spec() -> F64 {
        infinity::<F64>(true)
    }

    open spec fn pos_infinity_spec() -> F64 {
        infinity::<F64>(false)
    }

    fn neg_infinity() -> (r: F64) {
        F64(0xFFF0_0000_0000_0000)
    }

    fn pos_infinity() -> (r: F64) {
        F64(0x7FF0_0000_0000_0000)
    }
}

/// The sentinel of a floating point format is the value that is not a number,
/// in its usual quiet form.
impl InvalidSentinel for F64 {
    open spec fn invalid_sentinel_spec() -> F64 {
        quiet_nan::<F64>(false)
    }

    fn invalid_sentinel() -> (r: F64) {
        proof {
            lemma2_to64();
            lemma2_to64_rest();
        }
        F64(0x7FF8_0000_0000_0000)
    }
}

} // verus!
