//! The conversions from `i32` to the other integer types.
//!
//! The exact conversion and the default approximation are the same rule: an
//! integer needs no approximating, so all that is left is to see whether the
//! destination holds it.  The wrapping approximation never fails.

use crate::errors::{NoError, RangeError, Underflow};
use crate::integer::{
    convert_always, convert_checked, convert_or_underflow, convert_wrapping, exact, exact_always,
    exact_or_underflow, wrapping, ExactInteger,
};
use crate::{ApproxFrom, DefaultApprox, ValueFrom, Wrapping};
use vstd::prelude::*;

verus! {

// i32 -> i8.  An `i32` can lie on either side of the range of `i8`.

impl ValueFrom<i32> for i8 {
    type Err = RangeError;

    open spec fn value_from_spec(src: i32) -> Result<i8, RangeError> {
        exact::<i32, i8>(src)
    }

    fn value_from(src: i32) -> (r: Result<i8, RangeError>) {
        convert_checked::<i32, i8>(src)
    }
}

impl ExactInteger<i32> for i8 {
    proof fn lemma_value_from_is_exact(src: i32) {
    }
}

impl ApproxFrom<i32, DefaultApprox> for i8 {
    type Err = RangeError;

    open spec fn approx_from_spec(src: i32) -> Result<i8, RangeError> {
        exact::<i32, i8>(src)
    }

    fn approx_from(src: i32) -> (r: Result<i8, RangeError>) {
        convert_checked::<i32, i8>(src)
    }
}

impl ApproxFrom<i32, Wrapping> for i8 {
    type Err = NoError;

    open spec fn approx_from_spec(src: i32) -> Result<i8, NoError> {
        wrapping::<i32, i8>(src)
    }

    fn approx_from(src: i32) -> (r: Result<i8, NoError>) {
        convert_wrapping::<i32, i8>(src)
    }
}

// i32 -> i16.  An `i32` can lie on either side of the range of `i16`.

impl ValueFrom<i32> for i16 {
    type Err = RangeError;

    open spec fn value_from_spec(src: i32) -> Result<i16, RangeError> {
        exact::<i32, i16>(src)
    }

    fn value_from(src: i32) -> (r: Result<i16, RangeError>) {
        convert_checked::<i32, i16>(src)
    }
}

impl ExactInteger<i32> for i16 {
    proof fn lemma_value_from_is_exact(src: i32) {
    }
}

impl ApproxFrom<i32, DefaultApprox> for i16 {
    type Err = RangeError;

    open spec fn approx_from_spec(src: i32) -> Result<i16, RangeError> {
        exact::<i32, i16>(src)
    }

    fn approx_from(src: i32) -> (r: Result<i16, RangeError>) {
        convert_checked::<i32, i16>(src)
    }
}

impl ApproxFrom<i32, Wrapping> for i16 {
    type Err = NoError;

    open spec fn approx_from_spec(src: i32) -> Result<i16, NoError> {
        wrapping::<i32, i16>(src)
    }

    fn approx_from(src: i32) -> (r: Result<i16, NoError>) {
        convert_wrapping::<i32, i16>(src)
    }
}

// i32 -> i64.  Every `i32` is an `i64`.

impl ValueFrom<i32> for i64 {
    type Err = NoError;

    open spec fn value_from_spec(src: i32) -> Result<i64, NoError> {
        exact_always::<i32, i64>(src)
    }

    fn value_from(src: i32) -> (r: Result<i64, NoError>) {
        convert_always::<i32, i64>(src)
    }
}

impl ExactInteger<i32> for i64 {
    proof fn lemma_value_from_is_exact(src: i32) {
    }
}

impl ApproxFrom<i32, DefaultApprox> for i64 {
    type Err = NoError;

    open spec fn approx_from_spec(src: i32) -> Result<i64, NoError> {
        exact_always::<i32, i64>(src)
    }

    fn approx_from(src: i32) -> (r: Result<i64, NoError>) {
        convert_always::<i32, i64>(src)
    }
}

impl ApproxFrom<i32, Wrapping> for i64 {
    type Err = NoError;

    open spec fn approx_from_spec(src: i32) -> Result<i64, NoError> {
        wrapping::<i32, i64>(src)
    }

    fn approx_from(src: i32) -> (r: Result<i64, NoError>) {
        convert_wrapping::<i32, i64>(src)
    }
}

// i32 -> isize.  Every `i32` is an `isize`.

impl ValueFrom<i32> for isize {
    type Err = NoError;

    open spec fn value_from_spec(src: i32) -> Result<isize, NoError> {
        exact_always::<i32, isize>(src)
    }

    fn value_from(src: i32) -> (r: Result<isize, NoError>) {
        convert_always::<i32, isize>(src)
    }
}

impl ExactInteger<i32> for isize {
    proof fn lemma_value_from_is_exact(src: i32) {
    }
}

impl ApproxFrom<i32, DefaultApprox> for isize {
    type Err = NoError;

    open spec fn approx_from_spec(src: i32) -> Result<isize, NoError> {
        exact_always::<i32, isize>(src)
    }

    fn approx_from(src: i32) -> (r: Result<isize, NoError>) {
        convert_always::<i32, isize>(src)
    }
}

impl ApproxFrom<i32, Wrapping> for isize {
    type Err = NoError;

    open spec fn approx_from_spec(src: i32) -> Result<isize, NoError> {
        wrapping::<i32, isize>(src)
    }

    fn approx_from(src: i32) -> (r: Result<isize, NoError>) {
        convert_wrapping::<i32, isize>(src)
    }
}

// i32 -> u8.  An `i32` can lie on either side of the range of `u8`.

impl ValueFrom<i32> for u8 {
    type Err = RangeError;

    open spec fn value_from_spec(src: i32) -> Result<u8, RangeError> {
        exact::<i32, u8>(src)
    }

    fn value_from(src: i32) -> (r: Result<u8, RangeError>) {
        convert_checked::<i32, u8>(src)
    }
}

impl ExactInteger<i32> for u8 {
    proof fn lemma_value_from_is_exact(src: i32) {
    }
}

impl ApproxFrom<i32, DefaultApprox> for u8 {
    type Err = RangeError;

    open spec fn approx_from_spec(src: i32) -> Result<u8, RangeError> {
        exact::<i32, u8>(src)
    }

    fn approx_from(src: i32) -> (r: Result<u8, RangeError>) {
        convert_checked::<i32, u8>(src)
    }
}

impl ApproxFrom<i32, Wrapping> for u8 {
    type Err = NoError;

    open spec fn approx_from_spec(src: i32) -> Result<u8, NoError> {
        wrapping::<i32, u8>(src)
    }

    fn approx_from(src: i32) -> (r: Result<u8, NoError>) {
        convert_wrapping::<i32, u8>(src)
    }
}

// i32 -> u16.  An `i32` can lie on either side of the range of `u16`.

impl ValueFrom<i32> for u16 {
    type Err = RangeError;

    open spec fn value_from_spec(src: i32) -> Result<u16, RangeError> {
        exact::<i32, u16>(src)
    }

    fn value_from(src: i32) -> (r: Result<u16, RangeError>) {
        convert_checked::<i32, u16>(src)
    }
}

impl ExactInteger<i32> for u16 {
    proof fn lemma_value_from_is_exact(src: i32) {
    }
}

impl ApproxFrom<i32, DefaultApprox> for u16 {
    type Err = RangeError;

    open spec fn approx_from_spec(src: i32) -> Result<u16, RangeError> {
        exact::<i32, u16>(src)
    }

    fn approx_from(src: i32) -> (r: Result<u16, RangeError>) {
        convert_checked::<i32, u16>(src)
    }
}

impl ApproxFrom<i32, Wrapping> for u16 {
    type Err = NoError;

    open spec fn approx_from_spec(src: i32) -> Result<u16, NoError> {
        wrapping::<i32, u16>(src)
    }

    fn approx_from(src: i32) -> (r: Result<u16, NoError>) {
        convert_wrapping::<i32, u16>(src)
    }
}

// i32 -> u32.  An `i32` is a `u32` unless it is negative.

impl ValueFrom<i32> for u32 {
    type Err = Underflow;

    open spec fn value_from_spec(src: i32) -> Result<u32, Underflow> {
        exact_or_underflow::<i32, u32>(src)
    }

    fn value_from(src: i32) -> (r: Result<u32, Underflow>) {
        convert_or_underflow::<i32, u32>(src)
    }
}

impl ExactInteger<i32> for u32 {
    proof fn lemma_value_from_is_exact(src: i32) {
    }
}

impl ApproxFrom<i32, DefaultApprox> for u32 {
    type Err = Underflow;

    open spec fn approx_from_spec(src: i32) -> Result<u32, Underflow> {
        exact_or_underflow::<i32, u32>(src)
    }

    fn approx_from(src: i32) -> (r: Result<u32, Underflow>) {
        convert_or_underflow::<i32, u32>(src)
    }
}

impl ApproxFrom<i32, Wrapping> for u32 {
    type Err = NoError;

    open spec fn approx_from_spec(src: i32) -> Result<u32, NoError> {
        wrapping::<i32, u32>(src)
    }

    fn approx_from(src: i32) -> (r: Result<u32, NoError>) {
        convert_wrapping::<i32, u32>(src)
    }
}

// i32 -> u64.  An `i32` is a `u64` unless it is negative.

impl ValueFrom<i32> for u64 {
    type Err = Underflow;

    open spec fn value_from_spec(src: i32) -> Result<u64, Underflow> {
        exact_or_underflow::<i32, u64>(src)
    }

    fn value_from(src: i32) -> (r: Result<u64, Underflow>) {
        convert_or_underflow::<i32, u64>(src)
    }
}

impl ExactInteger<i32> for u64 {
    proof fn lemma_value_from_is_exact(src: i32) {
    }
}

impl ApproxFrom<i32, DefaultApprox> for u64 {
    type Err = Underflow;

    open spec fn approx_from_spec(src: i32) -> Result<u64, Underflow> {
        exact_or_underflow::<i32, u64>(src)
    }

    fn approx_from(src: i32) -> (r: Result<u64, Underflow>) {
        convert_or_underflow::<i32, u64>(src)
    }
}

impl ApproxFrom<i32, Wrapping> for u64 {
    type Err = NoError;

    open spec fn approx_from_spec(src: i32) -> Result<u64, NoError> {
        wrapping::<i32, u64>(src)
    }

    fn approx_from(src: i32) -> (r: Result<u64, NoError>) {
        convert_wrapping::<i32, u64>(src)
    }
}

// i32 -> usize.  An `i32` is a `usize` unless it is negative.

impl ValueFrom<i32> for usize {
    type Err = Underflow;

    open spec fn value_from_spec(src: i32) -> Result<usize, Underflow> {
        exact_or_underflow::<i32, usize>(src)
    }

    fn value_from(src: i32) -> (r: Result<usize, Underflow>) {
        convert_or_underflow::<i32, usize>(src)
    }
}

impl ExactInteger<i32> for usize {
    proof fn lemma_value_from_is_exact(src: i32) {
    }
}

impl ApproxFrom<i32, DefaultApprox> for usize {
    type Err = Underflow;

    open spec fn approx_from_spec(src: i32) -> Result<usize, Underflow> {
        exact_or_underflow::<i32, usize>(src)
    }

    fn approx_from(src: i32) -> (r: Result<usize, Underflow>) {
        convert_or_underflow::<i32, usize>(src)
    }
}

impl ApproxFrom<i32, Wrapping> for usize {
    type Err = NoError;

    open spec fn approx_from_spec(src: i32) -> Result<usize, NoError> {
        wrapping::<i32, usize>(src)
    }

    fn approx_from(src: i32) -> (r: Result<usize, NoError>) {
        convert_wrapping::<i32, usize>(src)
    }
}

} // verus!
