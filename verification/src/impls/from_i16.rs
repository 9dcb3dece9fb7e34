//! The conversions from `i16` to the other integer types.
//!
//! The exact conversion and the default approximation are the same rule: an
//! integer needs no approximating, so all that is left is to see whether the
//! destination holds it.  The wrapping approximation never fails.

use crate::errors::{NoError, RangeError, Underflow};
use crate::integer::{
    convert_always, convert_checked, convert_or_underflow, convert_wrapping, exact, exact_always,
    exact_or_underflow, wrapping, ExactInteger,
};
use crate::{ApproxFrom, DefaultApprox, ValueFrom, Wrapping};
use vstd::prelude::*;

verus! {

// i16 -> i8.  An `i16` can lie on either side of the range of `i8`.

impl ValueFrom<i16> for i8 {
    type Err = RangeError;

    open spec fn value_from_spec(src: i16) -> Result<i8, RangeError> {
        exact::<i16, i8>(src)
    }

    fn value_from(src: i16) -> (r: Result<i8, RangeError>) {
        convert_checked::<i16, i8>(src)
    }
}

impl ExactInteger<i16> for i8 {
    proof fn lemma_value_from_is_exact(src: i16) {
    }
}

impl ApproxFrom<i16, DefaultApprox> for i8 {
    type Err = RangeError;

    open spec fn approx_from_spec(src: i16) -> Result<i8, RangeError> {
        exact::<i16, i8>(src)
    }

    fn approx_from(src: i16) -> (r: Result<i8, RangeError>) {
        convert_checked::<i16, i8>(src)
    }
}

impl ApproxFrom<i16, Wrapping> for i8 {
    type Err = NoError;

    open spec fn approx_from_spec(src: i16) -> Result<i8, NoError> {
        wrapping::<i16, i8>(src)
    }

    fn approx_from(src: i16) -> (r: Result<i8, NoError>) {
        convert_wrapping::<i16, i8>(src)
    }
}

// i16 -> i32.  Every `i16` is an `i32`.

impl ValueFrom<i16> for i32 {
    type Err = NoError;

    open spec fn value_from_spec(src: i16) -> Result<i32, NoError> {
        exact_always::<i16, i32>(src)
    }

    fn value_from(src: i16) -> (r: Result<i32, NoError>) {
        convert_always::<i16, i32>(src)
    }
}

impl ExactInteger<i16> for i32 {
    proof fn lemma_value_from_is_exact(src: i16) {
    }
}

impl ApproxFrom<i16, DefaultApprox> for i32 {
    type Err = NoError;

    open spec fn approx_from_spec(src: i16) -> Result<i32, NoError> {
        exact_always::<i16, i32>(src)
    }

    fn approx_from(src: i16) -> (r: Result<i32, NoError>) {
        convert_always::<i16, i32>(src)
    }
}

impl ApproxFrom<i16, Wrapping> for i32 {
    type Err = NoError;

    open spec fn approx_from_spec(src: i16) -> Result<i32, NoError> {
        wrapping::<i16, i32>(src)
    }

    fn approx_from(src: i16) -> (r: Result<i32, NoError>) {
        convert_wrapping::<i16, i32>(src)
    }
}

// i16 -> i64.  Every `i16` is an `i64`.

impl ValueFrom<i16> for i64 {
    type Err = NoError;

    open spec fn value_from_spec(src: i16) -> Result<i64, NoError> {
        exact_always::<i16, i64>(src)
    }

    fn value_from(src: i16) -> (r: Result<i64, NoError>) {
        convert_always::<i16, i64>(src)
    }
}

impl ExactInteger<i16> for i64 {
    proof fn lemma_value_from_is_exact(src: i16) {
    }
}

impl ApproxFrom<i16, DefaultApprox> for i64 {
    type Err = NoError;

    open spec fn approx_from_spec(src: i16) -> Result<i64, NoError> {
        exact_always::<i16, i64>(src)
    }

    fn approx_from(src: i16) -> (r: Result<i64, NoError>) {
        convert_always::<i16, i64>(src)
    }
}

impl ApproxFrom<i16, Wrapping> for i64 {
    type Err = NoError;

    open spec fn approx_from_spec(src: i16) -> Result<i64, NoError> {
        wrapping::<i16, i64>(src)
    }

    fn approx_from(src: i16) -> (r: Result<i64, NoError>) {
        convert_wrapping::<i16, i64>(src)
    }
}

// i16 -> isize.  Every `i16` is an `isize`.

impl ValueFrom<i16> for isize {
    type Err = NoError;

    open spec fn value_from_spec(src: i16) -> Result<isize, NoError> {
        exact_always::<i16, isize>(src)
    }

    fn value_from(src: i16) -> (r: Result<isize, NoError>) {
        convert_always::<i16, isize>(src)
    }
}

impl ExactInteger<i16> for isize {
    proof fn lemma_value_from_is_exact(src: i16) {
    }
}

impl ApproxFrom<i16, DefaultApprox> for isize {
    type Err = NoError;

    open spec fn approx_from_spec(src: i16) -> Result<isize, NoError> {
        exact_always::<i16, isize>(src)
    }

    fn approx_from(src: i16) -> (r: Result<isize, NoError>) {
        convert_always::<i16, isize>(src)
    }
}

impl ApproxFrom<i16, Wrapping> for isize {
    type Err = NoError;

    open spec fn approx_from_spec(src: i16) -> Result<isize, NoError> {
        wrapping::<i16, isize>(src)
    }

    fn approx_from(src: i16) -> (r: Result<isize, NoError>) {
        convert_wrapping::<i16, isize>(src)
    }
}

// i16 -> u8.  An `i16` can lie on either side of the range of `u8`.

impl ValueFrom<i16> for u8 {
    type Err = RangeError;

    open spec fn value_from_spec(src: i16) -> Result<u8, RangeError> {
        exact::<i16, u8>(src)
    }

    fn value_from(src: i16) -> (r: Result<u8, RangeError>) {
        convert_checked::<i16, u8>(src)
    }
}

impl ExactInteger<i16> for u8 {
    proof fn lemma_value_from_is_exact(src: i16) {
    }
}

impl ApproxFrom<i16, DefaultApprox> for u8 {
    type Err = RangeError;

    open spec fn approx_from_spec(src: i16) -> Result<u8, RangeError> {
        exact::<i16, u8>(src)
    }

    fn approx_from(src: i16) -> (r: Result<u8, RangeError>) {
        convert_checked::<i16, u8>(src)
    }
}

impl ApproxFrom<i16, Wrapping> for u8 {
    type Err = NoError;

    open spec fn approx_from_spec(src: i16) -> Result<u8, NoError> {
        wrapping::<i16, u8>(src)
    }

    fn approx_from(src: i16) -> (r: Result<u8, NoError>) {
        convert_wrapping::<i16, u8>(src)
    }
}

// i16 -> u16.  An `i16` is a `u16` unless it is negative.

impl ValueFrom<i16> for u16 {
    type Err = Underflow;

    open spec fn value_from_spec(src: i16) -> Result<u16, Underflow> {
        exact_or_underflow::<i16, u16>(src)
    }

    fn value_from(src: i16) -> (r: Result<u16, Underflow>) {
        convert_or_underflow::<i16, u16>(src)
    }
}

impl ExactInteger<i16> for u16 {
    proof fn lemma_value_from_is_exact(src: i16) {
    }
}

impl ApproxFrom<i16, DefaultApprox> for u16 {
    type Err = Underflow;

    open spec fn approx_from_spec(src: i16) -> Result<u16, Underflow> {
        exact_or_underflow::<i16, u16>(src)
    }

    fn approx_from(src: i16) -> (r: Result<u16, Underflow>) {
        convert_or_underflow::<i16, u16>(src)
    }
}

impl ApproxFrom<i16, Wrapping> for u16 {
    type Err = NoError;

    open spec fn approx_from_spec(src: i16) -> Result<u16, NoError> {
        wrapping::<i16, u16>(src)
    }

    fn approx_from(src: i16) -> (r: Result<u16, NoError>) {
        convert_wrapping::<i16, u16>(src)
    }
}

// i16 -> u32.  An `i16` is a `u32` unless it is negative.

impl ValueFrom<i16> for u32 {
    type Err = Underflow;

    open spec fn value_from_spec(src: i16) -> Result<u32, Underflow> {
        exact_or_underflow::<i16, u32>(src)
    }

    fn value_from(src: i16) -> (r: Result<u32, Underflow>) {
        convert_or_underflow::<i16, u32>(src)
    }
}

impl ExactInteger<i16> for u32 {
    proof fn lemma_value_from_is_exact(src: i16) {
    }
}

impl ApproxFrom<i16, DefaultApprox> for u32 {
    type Err = Underflow;

    open spec fn approx_from_spec(src: i16) -> Result<u32, Underflow> {
        exact_or_underflow::<i16, u32>(src)
    }

    fn approx_from(src: i16) -> (r: Result<u32, Underflow>) {
        convert_or_underflow::<i16, u32>(src)
    }
}

impl ApproxFrom<i16, Wrapping> for u32 {
    type Err = NoError;

    open spec fn approx_from_spec(src: i16) -> Result<u32, NoError> {
        wrapping::<i16, u32>(src)
    }

    fn approx_from(src: i16) -> (r: Result<u32, NoError>) {
        convert_wrapping::<i16, u32>(src)
    }
}

// i16 -> u64.  An `i16` is a `u64` unless it is negative.

impl ValueFrom<i16> for u64 {
    type Err = Underflow;

    open spec fn value_from_spec(src: i16) -> Result<u64, Underflow> {
        exact_or_underflow::<i16, u64>(src)
    }

    fn value_from(src: i16) -> (r: Result<u64, Underflow>) {
        convert_or_underflow::<i16, u64>(src)
    }
}

impl ExactInteger<i16> for u64 {
    proof fn lemma_value_from_is_exact(src: i16) {
    }
}

impl ApproxFrom<i16, DefaultApprox> for u64 {
    type Err = Underflow;

    open spec fn approx_from_spec(src: i16) -> Result<u64, Underflow> {
        exact_or_underflow::<i16, u64>(src)
    }

    fn approx_from(src: i16) -> (r: Result<u64, Underflow>) {
        convert_or_underflow::<i16, u64>(src)
    }
}

impl ApproxFrom<i16, Wrapping> for u64 {
    type Err = NoError;

    open spec fn approx_from_spec(src: i16) -> Result<u64, NoError> {
        wrapping::<i16, u64>(src)
    }

    fn approx_from(src: i16) -> (r: Result<u64, NoError>) {
        convert_wrapping::<i16, u64>(src)
    }
}

// i16 -> usize.  An `i16` is a `usize` unless it is negative.

impl ValueFrom<i16> for usize {
    type Err = Underflow;

    open spec fn value_from_spec(src: i16) -> Result<usize, Underflow> {
        exact_or_underflow::<i16, usize>(src)
    }

    fn value_from(src: i16) -> (r: Result<usize, Underflow>) {
        convert_or_underflow::<i16, usize>(src)
    }
}

impl ExactInteger<i16> for usize {
    proof fn lemma_value_from_is_exact(src: i16) {
    }
}

impl ApproxFrom<i16, DefaultApprox> for usize {
    type Err = Underflow;

    open spec fn approx_from_spec(src: i16) -> Result<usize, Underflow> {
        exact_or_underflow::<i16, usize>(src)
    }

    fn approx_from(src: i16) -> (r: Result<usize, Underflow>) {
        convert_or_underflow::<i16, usize>(src)
    }
}

impl ApproxFrom<i16, Wrapping> for usize {
    type Err = NoError;

    open spec fn approx_from_spec(src: i16) -> Result<usize, NoError> {
        wrapping::<i16, usize>(src)
    }

    fn approx_from(src: i16) -> (r: Result<usize, NoError>) {
        convert_wrapping::<i16, usize>(src)
    }
}

} // verus!
