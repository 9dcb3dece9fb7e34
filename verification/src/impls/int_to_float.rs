//! The conversions from the integer types to the floating point formats.
//!
//! A floating point format holds every integer up to a bound, and beyond it
//! only some.  The exact conversion is refused beyond the bound, whether or
//! not the integer at hand happens to be held; the approximation gives the
//! nearest number, and never fails.

use crate::errors::{NoError, Overflow, RangeError};
use crate::float::from_integer::{
    approx_float, convert_integer_to_float, convert_integer_to_float_always,
    convert_integer_to_float_checked, convert_integer_to_float_or_overflow, exact_float,
    exact_float_always, exact_float_or_overflow, ExactFloat,
};
use crate::float::{F32, F64};
use crate::{ApproxFrom, DefaultApprox, ValueFrom};
use vstd::arithmetic::power2::{lemma2_to64, lemma2_to64_rest};
use vstd::prelude::*;

verus! {

// i8 -> F32.  Every `i8` lies within the bound of `F32`.

impl ValueFrom<i8> for F32 {
    type Err = NoError;

    open spec fn value_from_spec(src: i8) -> Result<F32, NoError> {
        exact_float_always::<i8, F32>(src)
    }

    fn value_from(src: i8) -> (r: Result<F32, NoError>) {
        proof {
            lemma2_to64();
            lemma2_to64_rest();
        }
        convert_integer_to_float_always::<i8, F32>(src)
    }
}

impl ExactFloat<i8> for F32 {
    proof fn lemma_value_from_is_exact(src: i8) {
        lemma2_to64();
        lemma2_to64_rest();
    }
}

impl ApproxFrom<i8, DefaultApprox> for F32 {
    type Err = NoError;

    open spec fn approx_from_spec(src: i8) -> Result<F32, NoError> {
        approx_float::<i8, F32>(src)
    }

    fn approx_from(src: i8) -> (r: Result<F32, NoError>) {
        convert_integer_to_float::<i8, F32>(src)
    }
}

// i16 -> F32.  Every `i16` lies within the bound of `F32`.

impl ValueFrom<i16> for F32 {
    type Err = NoError;

    open spec fn value_from_spec(src: i16) -> Result<F32, NoError> {
        exact_float_always::<i16, F32>(src)
    }

    fn value_from(src: i16) -> (r: Result<F32, NoError>) {
        proof {
            lemma2_to64();
            lemma2_to64_rest();
        }
        convert_integer_to_float_always::<i16, F32>(src)
    }
}

impl ExactFloat<i16> for F32 {
    proof fn lemma_value_from_is_exact(src: i16) {
        lemma2_to64();
        lemma2_to64_rest();
    }
}

impl ApproxFrom<i16, DefaultApprox> for F32 {
    type Err = NoError;

    open spec fn approx_from_spec(src: i16) -> Result<F32, NoError> {
        approx_float::<i16, F32>(src)
    }

    fn approx_from(src: i16) -> (r: Result<F32, NoError>) {
        convert_integer_to_float::<i16, F32>(src)
    }
}

// i32 -> F32.  An `i32` can lie on either side of the bounds of `F32`.

impl ValueFrom<i32> for F32 {
    type Err = RangeError;

    open spec fn value_from_spec(src: i32) -> Result<F32, RangeError> {
        exact_float::<i32, F32>(src)
    }

    fn value_from(src: i32) -> (r: Result<F32, RangeError>) {
        convert_integer_to_float_checked::<i32, F32>(src)
    }
}

impl ExactFloat<i32> for F32 {
    proof fn lemma_value_from_is_exact(src: i32) {
        lemma2_to64();
        lemma2_to64_rest();
    }
}

impl ApproxFrom<i32, DefaultApprox> for F32 {
    type Err = NoError;

    open spec fn approx_from_spec(src: i32) -> Result<F32, NoError> {
        approx_float::<i32, F32>(src)
    }

    fn approx_from(src: i32) -> (r: Result<F32, NoError>) {
        convert_integer_to_float::<i32, F32>(src)
    }
}

// i64 -> F32.  An `i64` can lie on either side of the bounds of `F32`.

impl ValueFrom<i64> for F32 {
    type Err = RangeError;

    open spec fn value_from_spec(src: i64) -> Result<F32, RangeError> {
        exact_float::<i64, F32>(src)
    }

    fn value_from(src: i64) -> (r: Result<F32, RangeError>) {
        convert_integer_to_float_checked::<i64, F32>(src)
    }
}

impl ExactFloat<i64> for F32 {
    proof fn lemma_value_from_is_exact(src: i64) {
        lemma2_to64();
        lemma2_to64_rest();
    }
}

impl ApproxFrom<i64, DefaultApprox> for F32 {
    type Err = NoError;

    open spec fn approx_from_spec(src: i64) -> Result<F32, NoError> {
        approx_float::<i64, F32>(src)
    }

    fn approx_from(src: i64) -> (r: Result<F32, NoError>) {
        convert_integer_to_float::<i64, F32>(src)
    }
}

// isize -> F32.  An `isize` can lie on either side of the bounds of `F32`.

impl ValueFrom<isize> for F32 {
    type Err = RangeError;

    open spec fn value_from_spec(src: isize) -> Result<F32, RangeError> {
        exact_float::<isize, F32>(src)
    }

    fn value_from(src: isize) -> (r: Result<F32, RangeError>) {
        convert_integer_to_float_checked::<isize, F32>(src)
    }
}

impl ExactFloat<isize> for F32 {
    proof fn lemma_value_from_is_exact(src: isize) {
        lemma2_to64();
        lemma2_to64_rest();
    }
}

impl ApproxFrom<isize, DefaultApprox> for F32 {
    type Err = NoError;

    open spec fn approx_from_spec(src: isize) -> Result<F32, NoError> {
        approx_float::<isize, F32>(src)
    }

    fn approx_from(src: isize) -> (r: Result<F32, NoError>) {
        convert_integer_to_float::<isize, F32>(src)
    }
}

// u8 -> F32.  Every `u8` lies within the bound of `F32`.

impl ValueFrom<u8> for F32 {
    type Err = NoError;

    open spec fn value_from_spec(src: u8) -> Result<F32, NoError> {
        exact_float_always::<u8, F32>(src)
    }

    fn value_from(src: u8) -> (r: Result<F32, NoError>) {
        proof {
            lemma2_to64();
            lemma2_to64_rest();
        }
        convert_integer_to_float_always::<u8, F32>(src)
    }
}

impl ExactFloat<u8> for F32 {
    proof fn lemma_value_from_is_exact(src: u8) {
        lemma2_to64();
        lemma2_to64_rest();
    }
}

impl ApproxFrom<u8, DefaultApprox> for F32 {
    type Err = NoError;

    open spec fn approx_from_spec(src: u8) -> Result<F32, NoError> {
        approx_float::<u8, F32>(src)
    }

    fn approx_from(src: u8) -> (r: Result<F32, NoError>) {
        convert_integer_to_float::<u8, F32>(src)
    }
}

// u16 -> F32.  Every `u16` lies within the bound of `F32`.

impl ValueFrom<u16> for F32 {
    type Err = NoError;

    open spec fn value_from_spec(src: u16) -> Result<F32, NoError> {
        exact_float_always::<u16, F32>(src)
    }

    fn value_from(src: u16) -> (r: Result<F32, NoError>) {
        proof {
            lemma2_to64();
            lemma2_to64_rest();
        }
        convert_integer_to_float_always::<u16, F32>(src)
    }
}

impl ExactFloat<u16> for F32 {
    proof fn lemma_value_from_is_exact(src: u16) {
        lemma2_to64();
        lemma2_to64_rest();
    }
}

impl ApproxFrom<u16, DefaultApprox> for F32 {
    type Err = NoError;

    open spec fn approx_from_spec(src: u16) -> Result<F32, NoError> {
        approx_float::<u16, F32>(src)
    }

    fn approx_from(src: u16) -> (r: Result<F32, NoError>) {
        convert_integer_to_float::<u16, F32>(src)
    }
}

// u32 -> F32.  A `u32` can only lie above the bound of `F32`.

impl ValueFrom<u32> for F32 {
    type Err = Overflow;

    open spec fn value_from_spec(src: u32) -> Result<F32, Overflow> {
        exact_float_or_overflow::<u32, F32>(src)
    }

    fn value_from(src: u32) -> (r: Result<F32, Overflow>) {
        proof {
            lemma2_to64();
            lemma2_to64_rest();
        }
        convert_integer_to_float_or_overflow::<u32, F32>(src)
    }
}

impl ExactFloat<u32> for F32 {
    proof fn lemma_value_from_is_exact(src: u32) {
        lemma2_to64();
        lemma2_to64_rest();
    }
}

impl ApproxFrom<u32, DefaultApprox> for F32 {
    type Err = NoError;

    open spec fn approx_from_spec(src: u32) -> Result<F32, NoError> {
        approx_float::<u32, F32>(src)
    }

    fn approx_from(src: u32) -> (r: Result<F32, NoError>) {
        convert_integer_to_float::<u32, F32>(src)
    }
}

// u64 -> F32.  A `u64` can only lie above the bound of `F32`.

impl ValueFrom<u64> for F32 {
    type Err = Overflow;

    open spec fn value_from_spec(src: u64) -> Result<F32, Overflow> {
        exact_float_or_overflow::<u64, F32>(src)
    }

    fn value_from(src: u64) -> (r: Result<F32, Overflow>) {
        proof {
            lemma2_to64();
            lemma2_to64_rest();
        }
        convert_integer_to_float_or_overflow::<u64, F32>(src)
    }
}

impl ExactFloat<u64> for F32 {
    proof fn lemma_value_from_is_exact(src: u64) {
        lemma2_to64();
        lemma2_to64_rest();
    }
}

impl ApproxFrom<u64, DefaultApprox> for F32 {
    type Err = NoError;

    open spec fn approx_from_spec(src: u64) -> Result<F32, NoError> {
        approx_float::<u64, F32>(src)
    }

    fn approx_from(src: u64) -> (r: Result<F32, NoError>) {
        convert_integer_to_float::<u64, F32>(src)
    }
}

// usize -> F32.  A `usize` can only lie above the bound of `F32`.

impl ValueFrom<usize> for F32 {
    type Err = Overflow;

    open spec fn value_from_spec(src: usize) -> Result<F32, Overflow> {
        exact_float_or_overflow::<usize, F32>(src)
    }

    fn value_from(src: usize) -> (r: Result<F32, Overflow>) {
        proof {
            lemma2_to64();
            lemma2_to64_rest();
        }
        convert_integer_to_float_or_overflow::<usize, F32>(src)
    }
}

impl ExactFloat<usize> for F32 {
    proof fn lemma_value_from_is_exact(src: usize) {
        lemma2_to64();
        lemma2_to64_rest();
    }
}

impl ApproxFrom<usize, DefaultApprox> for F32 {
    type Err = NoError;

    open spec fn approx_from_spec(src: usize) -> Result<F32, NoError> {
        approx_float::<usize, F32>(src)
    }

    fn approx_from(src: usize) -> (r: Result<F32, NoError>) {
        convert_integer_to_float::<usize, F32>(src)
    }
}

// i8 -> F64.  Every `i8` lies within the bound of `F64`.

impl ValueFrom<i8> for F64 {
    type Err = NoError;

    open spec fn value_from_spec(src: i8) -> Result<F64, NoError> {
        exact_float_always::<i8, F64>(src)
    }

    fn value_from(src: i8) -> (r: Result<F64, NoError>) {
        proof {
            lemma2_to64();
            lemma2_to64_rest();
        }
        convert_integer_to_float_always::<i8, F64>(src)
    }
}

impl ExactFloat<i8> for F64 {
    proof fn lemma_value_from_is_exact(src: i8) {
        lemma2_to64();
        lemma2_to64_rest();
    }
}

impl ApproxFrom<i8, DefaultApprox> for F64 {
    type Err = NoError;

    open spec fn approx_from_spec(src: i8) -> Result<F64, NoError> {
        approx_float::<i8, F64>(src)
    }

    fn approx_from(src: i8) -> (r: Result<F64, NoError>) {
        convert_integer_to_float::<i8, F64>(src)
    }
}

// i16 -> F64.  Every `i16` lies within the bound of `F64`.

impl ValueFrom<i16> for F64 {
    type Err = NoError;

    open spec fn value_from_spec(src: i16) -> Result<F64, NoError> {
        exact_float_always::<i16, F64>(src)
    }

    fn value_from(src: i16) -> (r: Result<F64, NoError>) {
        proof {
            lemma2_to64();
            lemma2_to64_rest();
        }
        convert_integer_to_float_always::<i16, F64>(src)
    }
}

impl ExactFloat<i16> for F64 {
    proof fn lemma_value_from_is_exact(src: i16) {
        lemma2_to64();
        lemma2_to64_rest();
    }
}

impl ApproxFrom<i16, DefaultApprox> for F64 {
    type Err = NoError;

    open spec fn approx_from_spec(src: i16) -> Result<F64, NoError> {
        approx_float::<i16, F64>(src)
    }

    fn approx_from(src: i16) -> (r: Result<F64, NoError>) {
        convert_integer_to_float::<i16, F64>(src)
    }
}

// i32 -> F64.  Every `i32` lies within the bound of `F64`.

impl ValueFrom<i32> for F64 {
    type Err = NoError;

    open spec fn value_from_spec(src: i32) -> Result<F64, NoError> {
        exact_float_always::<i32, F64>(src)
    }

    fn value_from(src: i32) -> (r: Result<F64, NoError>) {
        proof {
            lemma2_to64();
            lemma2_to64_rest();
        }
        convert_integer_to_float_always::<i32, F64>(src)
    }
}

impl ExactFloat<i32> for F64 {
    proof fn lemma_value_from_is_exact(src: i32) {
        lemma2_to64();
        lemma2_to64_rest();
    }
}

impl ApproxFrom<i32, DefaultApprox> for F64 {
    type Err = NoError;

    open spec fn approx_from_spec(src: i32) -> Result<F64, NoError> {
        approx_float::<i32, F64>(src)
    }

    fn approx_from(src: i32) -> (r: Result<F64, NoError>) {
        convert_integer_to_float::<i32, F64>(src)
    }
}

// i64 -> F64.  An `i64` can lie on either side of the bounds of `F64`.

impl ValueFrom<i64> for F64 {
    type Err = RangeError;

    open spec fn value_from_spec(src: i64) -> Result<F64, RangeError> {
        exact_float::<i64, F64>(src)
    }

    fn value_from(src: i64) -> (r: Result<F64, RangeError>) {
        convert_integer_to_float_checked::<i64, F64>(src)
    }
}

impl ExactFloat<i64> for F64 {
    proof fn lemma_value_from_is_exact(src: i64) {
        lemma2_to64();
        lemma2_to64_rest();
    }
}

impl ApproxFrom<i64, DefaultApprox> for F64 {
    type Err = NoError;

    open spec fn approx_from_spec(src: i64) -> Result<F64, NoError> {
        approx_float::<i64, F64>(src)
    }

    fn approx_from(src: i64) -> (r: Result<F64, NoError>) {
        convert_integer_to_float::<i64, F64>(src)
    }
}

// isize -> F64.  An `isize` can lie on either side of the bounds of `F64`.

impl ValueFrom<isize> for F64 {
    type Err = RangeError;

    open spec fn value_from_spec(src: isize) -> Result<F64, RangeError> {
        exact_float::<isize, F64>(src)
    }

    fn value_from(src: isize) -> (r: Result<F64, RangeError>) {
        convert_integer_to_float_checked::<isize, F64>(src)
    }
}

impl ExactFloat<isize> for F64 {
    proof fn lemma_value_from_is_exact(src: isize) {
        lemma2_to64();
        lemma2_to64_rest();
    }
}

impl ApproxFrom<isize, DefaultApprox> for F64 {
    type Err = NoError;

    open spec fn approx_from_spec(src: isize) -> Result<F64, NoError> {
        approx_float::<isize, F64>(src)
    }

    fn approx_from(src: isize) -> (r: Result<F64, NoError>) {
        convert_integer_to_float::<isize, F64>(src)
    }
}

// u8 -> F64.  Every `u8` lies within the bound of `F64`.

impl ValueFrom<u8> for F64 {
    type Err = NoError;

    open spec fn value_from_spec(src: u8) -> Result<F64, NoError> {
        exact_float_always::<u8, F64>(src)
    }

    fn value_from(src: u8) -> (r: Result<F64, NoError>) {
        proof {
            lemma2_to64();
            lemma2_to64_rest();
        }
        convert_integer_to_float_always::<u8, F64>(src)
    }
}

impl ExactFloat<u8> for F64 {
    proof fn lemma_value_from_is_exact(src: u8) {
        lemma2_to64();
        lemma2_to64_rest();
    }
}

impl ApproxFrom<u8, DefaultApprox> for F64 {
    type Err = NoError;

    open spec fn approx_from_spec(src: u8) -> Result<F64, NoError> {
        approx_float::<u8, F64>(src)
    }

    fn approx_from(src: u8) -> (r: Result<F64, NoError>) {
        convert_integer_to_float::<u8, F64>(src)
    }
}

// u16 -> F64.  Every `u16` lies within the bound of `F64`.

impl ValueFrom<u16> for F64 {
    type Err = NoError;

    open spec fn value_from_spec(src: u16) -> Result<F64, NoError> {
        exact_float_always::<u16, F64>(src)
    }

    fn value_from(src: u16) -> (r: Result<F64, NoError>) {
        proof {
            lemma2_to64();
            lemma2_to64_rest();
        }
        convert_integer_to_float_always::<u16, F64>(src)
    }
}

impl ExactFloat<u16> for F64 {
    proof fn lemma_value_from_is_exact(src: u16) {
        lemma2_to64();
        lemma2_to64_rest();
    }
}

impl ApproxFrom<u16, DefaultApprox> for F64 {
    type Err = NoError;

    open spec fn approx_from_spec(src: u16) -> Result<F64, NoError> {
        approx_float::<u16, F64>(src)
    }

    fn approx_from(src: u16) -> (r: Result<F64, NoError>) {
        convert_integer_to_float::<u16, F64>(src)
    }
}

// u32 -> F64.  Every `u32` lies within the bound of `F64`.

impl ValueFrom<u32> for F64 {
    type Err = NoError;

    open spec fn value_from_spec(src: u32) -> Result<F64, NoError> {
        exact_float_always::<u32, F64>(src)
    }

    fn value_from(src: u32) -> (r: Result<F64, NoError>) {
        proof {
            lemma2_to64();
            lemma2_to64_rest();
        }
        convert_integer_to_float_always::<u32, F64>(src)
    }
}

impl ExactFloat<u32> for F64 {
    proof fn lemma_value_from_is_exact(src: u32) {
        lemma2_to64();
        lemma2_to64_rest();
    }
}

impl ApproxFrom<u32, DefaultApprox> for F64 {
    type Err = NoError;

    open spec fn approx_from_spec(src: u32) -> Result<F64, NoError> {
        approx_float::<u32, F64>(src)
    }

    fn approx_from(src: u32) -> (r: Result<F64, NoError>) {
        convert_integer_to_float::<u32, F64>(src)
    }
}

// u64 -> F64.  A `u64` can only lie above the bound of `F64`.

impl ValueFrom<u64> for F64 {
    type Err = Overflow;

    open spec fn value_from_spec(src: u64) -> Result<F64, Overflow> {
        exact_float_or_overflow::<u64, F64>(src)
    }

    fn value_from(src: u64) -> (r: Result<F64, Overflow>) {
        proof {
            lemma2_to64();
            lemma2_to64_rest();
        }
        convert_integer_to_float_or_overflow::<u64, F64>(src)
    }
}

impl ExactFloat<u64> for F64 {
    proof fn lemma_value_from_is_exact(src: u64) {
        lemma2_to64();
        lemma2_to64_rest();
    }
}

impl ApproxFrom<u64, DefaultApprox> for F64 {
    type Err = NoError;

    open spec fn approx_from_spec(src: u64) -> Result<F64, NoError> {
        approx_float::<u64, F64>(src)
    }

    fn approx_from(src: u64) -> (r: Result<F64, NoError>) {
        convert_integer_to_float::<u64, F64>(src)
    }
}

// usize -> F64.  A `usize` can only lie above the bound of `F64`.

impl ValueFrom<usize> for F64 {
    type Err = Overflow;

    open spec fn value_from_spec(src: usize) -> Result<F64, Overflow> {
        exact_float_or_overflow::<usize, F64>(src)
    }

    fn value_from(src: usize) -> (r: Result<F64, Overflow>) {
        proof {
            lemma2_to64();
            lemma2_to64_rest();
        }
        convert_integer_to_float_or_overflow::<usize, F64>(src)
    }
}

impl ExactFloat<usize> for F64 {
    proof fn lemma_value_from_is_exact(src: usize) {
        lemma2_to64();
        lemma2_to64_rest();
    }
}

impl ApproxFrom<usize, DefaultApprox> for F64 {
    type Err = NoError;

    open spec fn approx_from_spec(src: usize) -> Result<F64, NoError> {
        approx_float::<usize, F64>(src)
    }

    fn approx_from(src: usize) -> (r: Result<F64, NoError>) {
        convert_integer_to_float::<usize, F64>(src)
    }
}

} // verus!
