//! The conversions from `i8` to the other integer types.
//!
//! The exact conversion and the default approximation are the same rule: an
//! integer needs no approximating, so all that is left is to see whether the
//! destination holds it.  The wrapping approximation never fails.

use crate::errors::{NoError, Underflow};
use crate::integer::{
    convert_always, convert_or_underflow, convert_wrapping, exact_always, exact_or_underflow,
    wrapping, ExactInteger,
};
use crate::{ApproxFrom, DefaultApprox, ValueFrom, Wrapping};
use vstd::prelude::*;

verus! {

// i8 -> i16.  Every `i8` is an `i16`.

impl ValueFrom<i8> for i16 {
    type Err = NoError;

    open spec fn value_from_spec(src: i8) -> Result<i16, NoError> {
        exact_always::<i8, i16>(src)
    }

    fn value_from(src: i8) -> (r: Result<i16, NoError>) {
        convert_always::<i8, i16>(src)
    }
}

impl ExactInteger<i8> for i16 {
    proof fn lemma_value_from_is_exact(src: i8) {
    }
}

impl ApproxFrom<i8, DefaultApprox> for i16 {
    type Err = NoError;

    open spec fn approx_from_spec(src: i8) -> Result<i16, NoError> {
        exact_always::<i8, i16>(src)
    }

    fn approx_from(src: i8) -> (r: Result<i16, NoError>) {
        convert_always::<i8, i16>(src)
    }
}

impl ApproxFrom<i8, Wrapping> for i16 {
    type Err = NoError;

    open spec fn approx_from_spec(src: i8) -> Result<i16, NoError> {
        wrapping::<i8, i16>(src)
    }

    fn approx_from(src: i8) -> (r: Result<i16, NoError>) {
        convert_wrapping::<i8, i16>(src)
    }
}

// i8 -> i32.  Every `i8` is an `i32`.

impl ValueFrom<i8> for i32 {
    type Err = NoError;

    open spec fn value_from_spec(src: i8) -> Result<i32, NoError> {
        exact_always::<i8, i32>(src)
    }

    fn value_from(src: i8) -> (r: Result<i32, NoError>) {
        convert_always::<i8, i32>(src)
    }
}

impl ExactInteger<i8> for i32 {
    proof fn lemma_value_from_is_exact(src: i8) {
    }
}

impl ApproxFrom<i8, DefaultApprox> for i32 {
    type Err = NoError;

    open spec fn approx_from_spec(src: i8) -> Result<i32, NoError> {
        exact_always::<i8, i32>(src)
    }

    fn approx_from(src: i8) -> (r: Result<i32, NoError>) {
        convert_always::<i8, i32>(src)
    }
}

impl ApproxFrom<i8, Wrapping> for i32 {
    type Err = NoError;

    open spec fn approx_from_spec(src: i8) -> Result<i32, NoError> {
        wrapping::<i8, i32>(src)
    }

    fn approx_from(src: i8) -> (r: Result<i32, NoError>) {
        convert_wrapping::<i8, i32>(src)
    }
}

// i8 -> i64.  Every `i8` is an `i64`.

impl ValueFrom<i8> for i64 {
    type Err = NoError;

    open spec fn value_from_spec(src: i8) -> Result<i64, NoError> {
        exact_always::<i8, i64>(src)
    }

    fn value_from(src: i8) -> (r: Result<i64, NoError>) {
        convert_always::<i8, i64>(src)
    }
}

impl ExactInteger<i8> for i64 {
    proof fn lemma_value_from_is_exact(src: i8) {
    }
}

impl ApproxFrom<i8, DefaultApprox> for i64 {
    type Err = NoError;

    open spec fn approx_from_spec(src: i8) -> Result<i64, NoError> {
        exact_always::<i8, i64>(src)
    }

    fn approx_from(src: i8) -> (r: Result<i64, NoError>) {
        convert_always::<i8, i64>(src)
    }
}

impl ApproxFrom<i8, Wrapping> for i64 {
    type Err = NoError;

    open spec fn approx_from_spec(src: i8) -> Result<i64, NoError> {
        wrapping::<i8, i64>(src)
    }

    fn approx_from(src: i8) -> (r: Result<i64, NoError>) {
        convert_wrapping::<i8, i64>(src)
    }
}

// i8 -> isize.  Every `i8` is an `isize`.

impl ValueFrom<i8> for isize {
    type Err = NoError;

    open spec fn value_from_spec(src: i8) -> Result<isize, NoError> {
        exact_always::<i8, isize>(src)
    }

    fn value_from(src: i8) -> (r: Result<isize, NoError>) {
        convert_always::<i8, isize>(src)
    }
}

impl ExactInteger<i8> for isize {
    proof fn lemma_value_from_is_exact(src: i8) {
    }
}

impl ApproxFrom<i8, DefaultApprox> for isize {
    type Err = NoError;

    open spec fn approx_from_spec(src: i8) -> Result<isize, NoError> {
        exact_always::<i8, isize>(src)
    }

    fn approx_from(src: i8) -> (r: Result<isize, NoError>) {
        convert_always::<i8, isize>(src)
    }
}

impl ApproxFrom<i8, Wrapping> for isize {
    type Err = NoError;

    open spec fn approx_from_spec(src: i8) -> Result<isize, NoError> {
        wrapping::<i8, isize>(src)
    }

    fn approx_from(src: i8) -> (r: Result<isize, NoError>) {
        convert_wrapping::<i8, isize>(src)
    }
}

// i8 -> u8.  An `i8` is a `u8` unless it is negative.

impl ValueFrom<i8> for u8 {
    type Err = Underflow;

    open spec fn value_from_spec(src: i8) -> Result<u8, Underflow> {
        exact_or_underflow::<i8, u8>(src)
    }

    fn value_from(src: i8) -> (r: Result<u8, Underflow>) {
        convert_or_underflow::<i8, u8>(src)
    }
}

impl ExactInteger<i8> for u8 {
    proof fn lemma_value_from_is_exact(src: i8) {
    }
}

impl ApproxFrom<i8, DefaultApprox> for u8 {
    type Err = Underflow;

    open spec fn approx_from_spec(src: i8) -> Result<u8, Underflow> {
        exact_or_underflow::<i8, u8>(src)
    }

    fn approx_from(src: i8) -> (r: Result<u8, Underflow>) {
        convert_or_underflow::<i8, u8>(src)
    }
}

impl ApproxFrom<i8, Wrapping> for u8 {
    type Err = NoError;

    open spec fn approx_from_spec(src: i8) -> Result<u8, NoError> {
        wrapping::<i8, u8>(src)
    }

    fn approx_from(src: i8) -> (r: Result<u8, NoError>) {
        convert_wrapping::<i8, u8>(src)
    }
}

// i8 -> u16.  An `i8` is a `u16` unless it is negative.

impl ValueFrom<i8> for u16 {
    type Err = Underflow;

    open spec fn value_from_spec(src: i8) -> Result<u16, Underflow> {
        exact_or_underflow::<i8, u16>(src)
    }

    fn value_from(src: i8) -> (r: Result<u16, Underflow>) {
        convert_or_underflow::<i8, u16>(src)
    }
}

impl ExactInteger<i8> for u16 {
    proof fn lemma_value_from_is_exact(src: i8) {
    }
}

impl ApproxFrom<i8, DefaultApprox> for u16 {
    type Err = Underflow;

    open spec fn approx_from_spec(src: i8) -> Result<u16, Underflow> {
        exact_or_underflow::<i8, u16>(src)
    }

    fn approx_from(src: i8) -> (r: Result<u16, Underflow>) {
        convert_or_underflow::<i8, u16>(src)
    }
}

impl ApproxFrom<i8, Wrapping> for u16 {
    type Err = NoError;

    open spec fn approx_from_spec(src: i8) -> Result<u16, NoError> {
        wrapping::<i8, u16>(src)
    }

    fn approx_from(src: i8) -> (r: Result<u16, NoError>) {
        convert_wrapping::<i8, u16>(src)
    }
}

// i8 -> u32.  An `i8` is a `u32` unless it is negative.

impl ValueFrom<i8> for u32 {
    type Err = Underflow;

    open spec fn value_from_spec(src: i8) -> Result<u32, Underflow> {
        exact_or_underflow::<i8, u32>(src)
    }

    fn value_from(src: i8) -> (r: Result<u32, Underflow>) {
        convert_or_underflow::<i8, u32>(src)
    }
}

impl ExactInteger<i8> for u32 {
    proof fn lemma_value_from_is_exact(src: i8) {
    }
}

impl ApproxFrom<i8, DefaultApprox> for u32 {
    type Err = Underflow;

    open spec fn approx_from_spec(src: i8) -> Result<u32, Underflow> {
        exact_or_underflow::<i8, u32>(src)
    }

    fn approx_from(src: i8) -> (r: Result<u32, Underflow>) {
        convert_or_underflow::<i8, u32>(src)
    }
}

impl ApproxFrom<i8, Wrapping> for u32 {
    type Err = NoError;

    open spec fn approx_from_spec(src: i8) -> Result<u32, NoError> {
        wrapping::<i8, u32>(src)
    }

    fn approx_from(src: i8) -> (r: Result<u32, NoError>) {
        convert_wrapping::<i8, u32>(src)
    }
}

// i8 -> u64.  An `i8` is a `u64` unless it is negative.

impl ValueFrom<i8> for u64 {
    type Err = Underflow;

    open spec fn value_from_spec(src: i8) -> Result<u64, Underflow> {
        exact_or_underflow::<i8, u64>(src)
    }

    fn value_from(src: i8) -> (r: Result<u64, Underflow>) {
        convert_or_underflow::<i8, u64>(src)
    }
}

impl ExactInteger<i8> for u64 {
    proof fn lemma_value_from_is_exact(src: i8) {
    }
}

impl ApproxFrom<i8, DefaultApprox> for u64 {
    type Err = Underflow;

    open spec fn approx_from_spec(src: i8) -> Result<u64, Underflow> {
        exact_or_underflow::<i8, u64>(src)
    }

    fn approx_from(src: i8) -> (r: Result<u64, Underflow>) {
        convert_or_underflow::<i8, u64>(src)
    }
}

impl ApproxFrom<i8, Wrapping> for u64 {
    type Err = NoError;

    open spec fn approx_from_spec(src: i8) -> Result<u64, NoError> {
        wrapping::<i8, u64>(src)
    }

    fn approx_from(src: i8) -> (r: Result<u64, NoError>) {
        convert_wrapping::<i8, u64>(src)
    }
}

// i8 -> usize.  An `i8` is a `usize` unless it is negative.

impl ValueFrom<i8> for usize {
    type Err = Underflow;

    open spec fn value_from_spec(src: i8) -> Result<usize, Underflow> {
        exact_or_underflow::<i8, usize>(src)
    }

    fn value_from(src: i8) -> (r: Result<usize, Underflow>) {
        convert_or_underflow::<i8, usize>(src)
    }
}

impl ExactInteger<i8> for usize {
    proof fn lemma_value_from_is_exact(src: i8) {
    }
}

impl ApproxFrom<i8, DefaultApprox> for usize {
    type Err = Underflow;

    open spec fn approx_from_spec(src: i8) -> Result<usize, Underflow> {
        exact_or_underflow::<i8, usize>(src)
    }

    fn approx_from(src: i8) -> (r: Result<usize, Underflow>) {
        convert_or_underflow::<i8, usize>(src)
    }
}

impl ApproxFrom<i8, Wrapping> for usize {
    type Err = NoError;

    open spec fn approx_from_spec(src: i8) -> Result<usize, NoError> {
        wrapping::<i8, usize>(src)
    }

    fn approx_from(src: i8) -> (r: Result<usize, NoError>) {
        convert_wrapping::<i8, usize>(src)
    }
}

} // verus!
