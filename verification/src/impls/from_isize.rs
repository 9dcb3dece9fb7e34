//! The conversions from `isize` to the other integer types.
//!
//! The exact conversion and the default approximation are the same rule: an
//! integer needs no approximating, so all that is left is to see whether the
//! destination holds it.  The wrapping approximation never fails.

use crate::errors::{NoError, RangeError, Underflow};
use crate::integer::{
    convert_always, convert_checked, convert_or_underflow, convert_wrapping, exact, exact_always,
    exact_or_underflow, wrapping, ExactInteger,
};
use crate::{ApproxFrom, DefaultApprox, ValueFrom, Wrapping};
use vstd::prelude::*;

verus! {

// isize -> i8.  An `isize` can lie on either side of the range of `i8`.

impl ValueFrom<isize> for i8 {
    type Err = RangeError;

    open spec fn value_from_spec(src: isize) -> Result<i8, RangeError> {
        exact::<isize, i8>(src)
    }

    fn value_from(src: isize) -> (r: Result<i8, RangeError>) {
        convert_checked::<isize, i8>(src)
    }
}

impl ExactInteger<isize> for i8 {
    proof fn lemma_value_from_is_exact(src: isize) {
    }
}

impl ApproxFrom<isize, DefaultApprox> for i8 {
    type Err = RangeError;

    open spec fn approx_from_spec(src: isize) -> Result<i8, RangeError> {
        exact::<isize, i8>(src)
    }

    fn approx_from(src: isize) -> (r: Result<i8, RangeError>) {
        convert_checked::<isize, i8>(src)
    }
}

impl ApproxFrom<isize, Wrapping> for i8 {
    type Err = NoError;

    open spec fn approx_from_spec(src: isize) -> Result<i8, NoError> {
        wrapping::<isize, i8>(src)
    }

    fn approx_from(src: isize) -> (r: Result<i8, NoError>) {
        convert_wrapping::<isize, i8>(src)
    }
}

// isize -> i16.  An `isize` can lie on either side of the range of `i16`.

impl ValueFrom<isize> for i16 {
    type Err = RangeError;

    open spec fn value_from_spec(src: isize) -> Result<i16, RangeError> {
        exact::<isize, i16>(src)
    }

    fn value_from(src: isize) -> (r: Result<i16, RangeError>) {
        convert_checked::<isize, i16>(src)
    }
}

impl ExactInteger<isize> for i16 {
    proof fn lemma_value_from_is_exact(src: isize) {
    }
}

impl ApproxFrom<isize, DefaultApprox> for i16 {
    type Err = RangeError;

    open spec fn approx_from_spec(src: isize) -> Result<i16, RangeError> {
        exact::<isize, i16>(src)
    }

    fn approx_from(src: isize) -> (r: Result<i16, RangeError>) {
        convert_checked::<isize, i16>(src)
    }
}

impl ApproxFrom<isize, Wrapping> for i16 {
    type Err = NoError;

    open spec fn approx_from_spec(src: isize) -> Result<i16, NoError> {
        wrapping::<isize, i16>(src)
    }

    fn approx_from(src: isize) -> (r: Result<i16, NoError>) {
        convert_wrapping::<isize, i16>(src)
    }
}

// isize -> i32.  An `isize` can lie on either side of the range of `i32`.

impl ValueFrom<isize> for i32 {
    type Err = RangeError;

    open spec fn value_from_spec(src: isize) -> Result<i32, RangeError> {
        exact::<isize, i32>(src)
    }

    fn value_from(src: isize) -> (r: Result<i32, RangeError>) {
        convert_checked::<isize, i32>(src)
    }
}

impl ExactInteger<isize> for i32 {
    proof fn lemma_value_from_is_exact(src: isize) {
    }
}

impl ApproxFrom<isize, DefaultApprox> for i32 {
    type Err = RangeError;

    open spec fn approx_from_spec(src: isize) -> Result<i32, RangeError> {
        exact::<isize, i32>(src)
    }

    fn approx_from(src: isize) -> (r: Result<i32, RangeError>) {
        convert_checked::<isize, i32>(src)
    }
}

impl ApproxFrom<isize, Wrapping> for i32 {
    type Err = NoError;

    open spec fn approx_from_spec(src: isize) -> Result<i32, NoError> {
        wrapping::<isize, i32>(src)
    }

    fn approx_from(src: isize) -> (r: Result<i32, NoError>) {
        convert_wrapping::<isize, i32>(src)
    }
}

// isize -> i64.  Every `isize` is an `i64`.

impl ValueFrom<isize> for i64 {
    type Err = NoError;

    open spec fn value_from_spec(src: isize) -> Result<i64, NoError> {
        exact_always::<isize, i64>(src)
    }

    fn value_from(src: isize) -> (r: Result<i64, NoError>) {
        convert_always::<isize, i64>(src)
    }
}

impl ExactInteger<isize> for i64 {
    proof fn lemma_value_from_is_exact(src: isize) {
    }
}

impl ApproxFrom<isize, DefaultApprox> for i64 {
    type Err = NoError;

    open spec fn approx_from_spec(src: isize) -> Result<i64, NoError> {
        exact_always::<isize, i64>(src)
    }

    fn approx_from(src: isize) -> (r: Result<i64, NoError>) {
        convert_always::<isize, i64>(src)
    }
}

impl ApproxFrom<isize, Wrapping> for i64 {
    type Err = NoError;

    open spec fn approx_from_spec(src: isize) -> Result<i64, NoError> {
        wrapping::<isize, i64>(src)
    }

    fn approx_from(src: isize) -> (r: Result<i64, NoError>) {
        convert_wrapping::<isize, i64>(src)
    }
}

// isize -> u8.  An `isize` can lie on either side of the range of `u8`.

impl ValueFrom<isize> for u8 {
    type Err = RangeError;

    open spec fn value_from_spec(src: isize) -> Result<u8, RangeError> {
        exact::<isize, u8>(src)
    }

    fn value_from(src: isize) -> (r: Result<u8, RangeError>) {
        convert_checked::<isize, u8>(src)
    }
}

impl ExactInteger<isize> for u8 {
    proof fn lemma_value_from_is_exact(src: isize) {
    }
}

impl ApproxFrom<isize, DefaultApprox> for u8 {
    type Err = RangeError;

    open spec fn approx_from_spec(src: isize) -> Result<u8, RangeError> {
        exact::<isize, u8>(src)
    }

    fn approx_from(src: isize) -> (r: Result<u8, RangeError>) {
        convert_checked::<isize, u8>(src)
    }
}

impl ApproxFrom<isize, Wrapping> for u8 {
    type Err = NoError;

    open spec fn approx_from_spec(src: isize) -> Result<u8, NoError> {
        wrapping::<isize, u8>(src)
    }

    fn approx_from(src: isize) -> (r: Result<u8, NoError>) {
        convert_wrapping::<isize, u8>(src)
    }
}

// isize -> u16.  An `isize` can lie on either side of the range of `u16`.

impl ValueFrom<isize> for u16 {
    type Err = RangeError;

    open spec fn value_from_spec(src: isize) -> Result<u16, RangeError> {
        exact::<isize, u16>(src)
    }

    fn value_from(src: isize) -> (r: Result<u16, RangeError>) {
        convert_checked::<isize, u16>(src)
    }
}

impl ExactInteger<isize> for u16 {
    proof fn lemma_value_from_is_exact(src: isize) {
    }
}

impl ApproxFrom<isize, DefaultApprox> for u16 {
    type Err = RangeError;

    open spec fn approx_from_spec(src: isize) -> Result<u16, RangeError> {
        exact::<isize, u16>(src)
    }

    fn approx_from(src: isize) -> (r: Result<u16, RangeError>) {
        convert_checked::<isize, u16>(src)
    }
}

impl ApproxFrom<isize, Wrapping> for u16 {
    type Err = NoError;

    open spec fn approx_from_spec(src: isize) -> Result<u16, NoError> {
        wrapping::<isize, u16>(src)
    }

    fn approx_from(src: isize) -> (r: Result<u16, NoError>) {
        convert_wrapping::<isize, u16>(src)
    }
}

// isize -> u32.  An `isize` can lie on either side of the range of `u32`.

impl ValueFrom<isize> for u32 {
    type Err = RangeError;

    open spec fn value_from_spec(src: isize) -> Result<u32, RangeError> {
        exact::<isize, u32>(src)
    }

    fn value_from(src: isize) -> (r: Result<u32, RangeError>) {
        convert_checked::<isize, u32>(src)
    }
}

impl ExactInteger<isize> for u32 {
    proof fn lemma_value_from_is_exact(src: isize) {
    }
}

impl ApproxFrom<isize, DefaultApprox> for u32 {
    type Err = RangeError;

    open spec fn approx_from_spec(src: isize) -> Result<u32, RangeError> {
        exact::<isize, u32>(src)
    }

    fn approx_from(src: isize) -> (r: Result<u32, RangeError>) {
        convert_checked::<isize, u32>(src)
    }
}

impl ApproxFrom<isize, Wrapping> for u32 {
    type Err = NoError;

    open spec fn approx_from_spec(src: isize) -> Result<u32, NoError> {
        wrapping::<isize, u32>(src)
    }

    fn approx_from(src: isize) -> (r: Result<u32, NoError>) {
        convert_wrapping::<isize, u32>(src)
    }
}

// isize -> u64.  An `isize` is a `u64` unless it is negative.

impl ValueFrom<isize> for u64 {
    type Err = Underflow;

    open spec fn value_from_spec(src: isize) -> Result<u64, Underflow> {
        exact_or_underflow::<isize, u64>(src)
    }

    fn value_from(src: isize) -> (r: Result<u64, Underflow>) {
        convert_or_underflow::<isize, u64>(src)
    }
}

impl ExactInteger<isize> for u64 {
    proof fn lemma_value_from_is_exact(src: isize) {
    }
}

impl ApproxFrom<isize, DefaultApprox> for u64 {
    type Err = Underflow;

    open spec fn approx_from_spec(src: isize) -> Result<u64, Underflow> {
        exact_or_underflow::<isize, u64>(src)
    }

    fn approx_from(src: isize) -> (r: Result<u64, Underflow>) {
        convert_or_underflow::<isize, u64>(src)
    }
}

impl ApproxFrom<isize, Wrapping> for u64 {
    type Err = NoError;

    open spec fn approx_from_spec(src: isize) -> Result<u64, NoError> {
        wrapping::<isize, u64>(src)
    }

    fn approx_from(src: isize) -> (r: Result<u64, NoError>) {
        convert_wrapping::<isize, u64>(src)
    }
}

// isize -> usize.  An `isize` is a `usize` unless it is negative.

impl ValueFrom<isize> for usize {
    type Err = Underflow;

    open spec fn value_from_spec(src: isize) -> Result<usize, Underflow> {
        exact_or_underflow::<isize, usize>(src)
    }

    fn value_from(src: isize) -> (r: Result<usize, Underflow>) {
        convert_or_underflow::<isize, usize>(src)
    }
}

impl ExactInteger<isize> for usize {
    proof fn lemma_value_from_is_exact(src: isize) {
    }
}

impl ApproxFrom<isize, DefaultApprox> for usize {
    type Err = Underflow;

    open spec fn approx_from_spec(src: isize) -> Result<usize, Underflow> {
        exact_or_underflow::<isize, usize>(src)
    }

    fn approx_from(src: isize) -> (r: Result<usize, Underflow>) {
        convert_or_underflow::<isize, usize>(src)
    }
}

impl ApproxFrom<isize, Wrapping> for usize {
    type Err = NoError;

    open spec fn approx_from_spec(src: isize) -> Result<usize, NoError> {
        wrapping::<isize, usize>(src)
    }

    fn approx_from(src: isize) -> (r: Result<usize, NoError>) {
        convert_wrapping::<isize, usize>(src)
    }
}

} // verus!
