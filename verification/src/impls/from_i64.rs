//! The conversions from `i64` to the other integer types.
//!
//! The exact conversion and the default approximation are the same rule: an
//! integer needs no approximating, so all that is left is to see whether the
//! destination holds it.  The wrapping approximation never fails.

use crate::errors::{NoError, RangeError, Underflow};
use crate::integer::{
    convert_checked, convert_or_underflow, convert_wrapping, exact, exact_or_underflow, wrapping,
    ExactInteger,
};
use crate::{ApproxFrom, DefaultApprox, ValueFrom, Wrapping};
use vstd::prelude::*;

verus! {

// i64 -> i8.  An `i64` can lie on either side of the range of `i8`.

impl ValueFrom<i64> for i8 {
    type Err = RangeError;

    open spec fn value_from_spec(src: i64) -> Result<i8, RangeError> {
        exact::<i64, i8>(src)
    }

    fn value_from(src: i64) -> (r: Result<i8, RangeError>) {
        convert_checked::<i64, i8>(src)
    }
}

impl ExactInteger<i64> for i8 {
    proof fn lemma_value_from_is_exact(src: i64) {
    }
}

impl ApproxFrom<i64, DefaultApprox> for i8 {
    type Err = RangeError;

    open spec fn approx_from_spec(src: i64) -> Result<i8, RangeError> {
        exact::<i64, i8>(src)
    }

    fn approx_from(src: i64) -> (r: Result<i8, RangeError>) {
        convert_checked::<i64, i8>(src)
    }
}

impl ApproxFrom<i64, Wrapping> for i8 {
    type Err = NoError;

    open spec fn approx_from_spec(src: i64) -> Result<i8, NoError> {
        wrapping::<i64, i8>(src)
    }

    fn approx_from(src: i64) -> (r: Result<i8, NoError>) {
        convert_wrapping::<i64, i8>(src)
    }
}

// i64 -> i16.  An `i64` can lie on either side of the range of `i16`.

impl ValueFrom<i64> for i16 {
    type Err = RangeError;

    open spec fn value_from_spec(src: i64) -> Result<i16, RangeError> {
        exact::<i64, i16>(src)
    }

    fn value_from(src: i64) -> (r: Result<i16, RangeError>) {
        convert_checked::<i64, i16>(src)
    }
}

impl ExactInteger<i64> for i16 {
    proof fn lemma_value_from_is_exact(src: i64) {
    }
}

impl ApproxFrom<i64, DefaultApprox> for i16 {
    type Err = RangeError;

    open spec fn approx_from_spec(src: i64) -> Result<i16, RangeError> {
        exact::<i64, i16>(src)
    }

    fn approx_from(src: i64) -> (r: Result<i16, RangeError>) {
        convert_checked::<i64, i16>(src)
    }
}

impl ApproxFrom<i64, Wrapping> for i16 {
    type Err = NoError;

    open spec fn approx_from_spec(src: i64) -> Result<i16, NoError> {
        wrapping::<i64, i16>(src)
    }

    fn approx_from(src: i64) -> (r: Result<i16, NoError>) {
        convert_wrapping::<i64, i16>(src)
    }
}

// i64 -> i32.  An `i64` can lie on either side of the range of `i32`.

impl ValueFrom<i64> for i32 {
    type Err = RangeError;

    open spec fn value_from_spec(src: i64) -> Result<i32, RangeError> {
        exact::<i64, i32>(src)
    }

    fn value_from(src: i64) -> (r: Result<i32, RangeError>) {
        convert_checked::<i64, i32>(src)
    }
}

impl ExactInteger<i64> for i32 {
    proof fn lemma_value_from_is_exact(src: i64) {
    }
}

impl ApproxFrom<i64, DefaultApprox> for i32 {
    type Err = RangeError;

    open spec fn approx_from_spec(src: i64) -> Result<i32, RangeError> {
        exact::<i64, i32>(src)
    }

    fn approx_from(src: i64) -> (r: Result<i32, RangeError>) {
        convert_checked::<i64, i32>(src)
    }
}

impl ApproxFrom<i64, Wrapping> for i32 {
    type Err = NoError;

    open spec fn approx_from_spec(src: i64) -> Result<i32, NoError> {
        wrapping::<i64, i32>(src)
    }

    fn approx_from(src: i64) -> (r: Result<i32, NoError>) {
        convert_wrapping::<i64, i32>(src)
    }
}

// i64 -> isize.  An `i64` can lie on either side of the range of `isize`.

impl ValueFrom<i64> for isize {
    type Err = RangeError;

    open spec fn value_from_spec(src: i64) -> Result<isize, RangeError> {
        exact::<i64, isize>(src)
    }

    fn value_from(src: i64) -> (r: Result<isize, RangeError>) {
        convert_checked::<i64, isize>(src)
    }
}

impl ExactInteger<i64> for isize {
    proof fn lemma_value_from_is_exact(src: i64) {
    }
}

impl ApproxFrom<i64, DefaultApprox> for isize {
    type Err = RangeError;

    open spec fn approx_from_spec(src: i64) -> Result<isize, RangeError> {
        exact::<i64, isize>(src)
    }

    fn approx_from(src: i64) -> (r: Result<isize, RangeError>) {
        convert_checked::<i64, isize>(src)
    }
}

impl ApproxFrom<i64, Wrapping> for isize {
    type Err = NoError;

    open spec fn approx_from_spec(src: i64) -> Result<isize, NoError> {
        wrapping::<i64, isize>(src)
    }

    fn approx_from(src: i64) -> (r: Result<isize, NoError>) {
        convert_wrapping::<i64, isize>(src)
    }
}

// i64 -> u8.  An `i64` can lie on either side of the range of `u8`.

impl ValueFrom<i64> for u8 {
    type Err = RangeError;

    open spec fn value_from_spec(src: i64) -> Result<u8, RangeError> {
        exact::<i64, u8>(src)
    }

    fn value_from(src: i64) -> (r: Result<u8, RangeError>) {
        convert_checked::<i64, u8>(src)
    }
}

impl ExactInteger<i64> for u8 {
    proof fn lemma_value_from_is_exact(src: i64) {
    }
}

impl ApproxFrom<i64, DefaultApprox> for u8 {
    type Err = RangeError;

    open spec fn approx_from_spec(src: i64) -> Result<u8, RangeError> {
        exact::<i64, u8>(src)
    }

    fn approx_from(src: i64) -> (r: Result<u8, RangeError>) {
        convert_checked::<i64, u8>(src)
    }
}

impl ApproxFrom<i64, Wrapping> for u8 {
    type Err = NoError;

    open spec fn approx_from_spec(src: i64) -> Result<u8, NoError> {
        wrapping::<i64, u8>(src)
    }

    fn approx_from(src: i64) -> (r: Result<u8, NoError>) {
        convert_wrapping::<i64, u8>(src)
    }
}

// i64 -> u16.  An `i64` can lie on either side of the range of `u16`.

impl ValueFrom<i64> for u16 {
    type Err = RangeError;

    open spec fn value_from_spec(src: i64) -> Result<u16, RangeError> {
        exact::<i64, u16>(src)
    }

    fn value_from(src: i64) -> (r: Result<u16, RangeError>) {
        convert_checked::<i64, u16>(src)
    }
}

impl ExactInteger<i64> for u16 {
    proof fn lemma_value_from_is_exact(src: i64) {
    }
}

impl ApproxFrom<i64, DefaultApprox> for u16 {
    type Err = RangeError;

    open spec fn approx_from_spec(src: i64) -> Result<u16, RangeError> {
        exact::<i64, u16>(src)
    }

    fn approx_from(src: i64) -> (r: Result<u16, RangeError>) {
        convert_checked::<i64, u16>(src)
    }
}

impl ApproxFrom<i64, Wrapping> for u16 {
    type Err = NoError;

    open spec fn approx_from_spec(src: i64) -> Result<u16, NoError> {
        wrapping::<i64, u16>(src)
    }

    fn approx_from(src: i64) -> (r: Result<u16, NoError>) {
        convert_wrapping::<i64, u16>(src)
    }
}

// i64 -> u32.  An `i64` can lie on either side of the range of `u32`.

impl ValueFrom<i64> for u32 {
    type Err = RangeError;

    open spec fn value_from_spec(src: i64) -> Result<u32, RangeError> {
        exact::<i64, u32>(src)
    }

    fn value_from(src: i64) -> (r: Result<u32, RangeError>) {
        convert_checked::<i64, u32>(src)
    }
}

impl ExactInteger<i64> for u32 {
    proof fn lemma_value_from_is_exact(src: i64) {
    }
}

impl ApproxFrom<i64, DefaultApprox> for u32 {
    type Err = RangeError;

    open spec fn approx_from_spec(src: i64) -> Result<u32, RangeError> {
        exact::<i64, u32>(src)
    }

    fn approx_from(src: i64) -> (r: Result<u32, RangeError>) {
        convert_checked::<i64, u32>(src)
    }
}

impl ApproxFrom<i64, Wrapping> for u32 {
    type Err = NoError;

    open spec fn approx_from_spec(src: i64) -> Result<u32, NoError> {
        wrapping::<i64, u32>(src)
    }

    fn approx_from(src: i64) -> (r: Result<u32, NoError>) {
        convert_wrapping::<i64, u32>(src)
    }
}

// i64 -> u64.  An `i64` is a `u64` unless it is negative.

impl ValueFrom<i64> for u64 {
    type Err = Underflow;

    open spec fn value_from_spec(src: i64) -> Result<u64, Underflow> {
        exact_or_underflow::<i64, u64>(src)
    }

    fn value_from(src: i64) -> (r: Result<u64, Underflow>) {
        convert_or_underflow::<i64, u64>(src)
    }
}

impl ExactInteger<i64> for u64 {
    proof fn lemma_value_from_is_exact(src: i64) {
    }
}

impl ApproxFrom<i64, DefaultApprox> for u64 {
    type Err = Underflow;

    open spec fn approx_from_spec(src: i64) -> Result<u64, Underflow> {
        exact_or_underflow::<i64, u64>(src)
    }

    fn approx_from(src: i64) -> (r: Result<u64, Underflow>) {
        convert_or_underflow::<i64, u64>(src)
    }
}

impl ApproxFrom<i64, Wrapping> for u64 {
    type Err = NoError;

    open spec fn approx_from_spec(src: i64) -> Result<u64, NoError> {
        wrapping::<i64, u64>(src)
    }

    fn approx_from(src: i64) -> (r: Result<u64, NoError>) {
        convert_wrapping::<i64, u64>(src)
    }
}

// i64 -> usize.  An `i64` can lie on either side of the range of `usize`.

impl ValueFrom<i64> for usize {
    type Err = RangeError;

    open spec fn value_from_spec(src: i64) -> Result<usize, RangeError> {
        exact::<i64, usize>(src)
    }

    fn value_from(src: i64) -> (r: Result<usize, RangeError>) {
        convert_checked::<i64, usize>(src)
    }
}

impl ExactInteger<i64> for usize {
    proof fn lemma_value_from_is_exact(src: i64) {
    }
}

impl ApproxFrom<i64, DefaultApprox> for usize {
    type Err = RangeError;

    open spec fn approx_from_spec(src: i64) -> Result<usize, RangeError> {
        exact::<i64, usize>(src)
    }

    fn approx_from(src: i64) -> (r: Result<usize, RangeError>) {
        convert_checked::<i64, usize>(src)
    }
}

impl ApproxFrom<i64, Wrapping> for usize {
    type Err = NoError;

    open spec fn approx_from_spec(src: i64) -> Result<usize, NoError> {
        wrapping::<i64, usize>(src)
    }

    fn approx_from(src: i64) -> (r: Result<usize, NoError>) {
        convert_wrapping::<i64, usize>(src)
    }
}

} // verus!
