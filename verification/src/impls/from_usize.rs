//! The conversions from `usize` to the other integer types.
//!
//! The exact conversion and the default approximation are the same rule: an
//! integer needs no approximating, so all that is left is to see whether the
//! destination holds it.  The wrapping approximation never fails.

use crate::errors::{NoError, Overflow};
use crate::integer::{
    convert_always, convert_or_overflow, convert_wrapping, exact_always, exact_or_overflow,
    wrapping, ExactInteger,
};
use crate::{ApproxFrom, DefaultApprox, ValueFrom, Wrapping};
use vstd::prelude::*;

verus! {

// usize -> i8.  A `usize` is an `i8` unless it is too large.

impl ValueFrom<usize> for i8 {
    type Err = Overflow;

    open spec fn value_from_spec(src: usize) -> Result<i8, Overflow> {
        exact_or_overflow::<usize, i8>(src)
    }

    fn value_from(src: usize) -> (r: Result<i8, Overflow>) {
        convert_or_overflow::<usize, i8>(src)
    }
}

impl ExactInteger<usize> for i8 {
    proof fn lemma_value_from_is_exact(src: usize) {
    }
}

impl ApproxFrom<usize, DefaultApprox> for i8 {
    type Err = Overflow;

    open spec fn approx_from_spec(src: usize) -> Result<i8, Overflow> {
        exact_or_overflow::<usize, i8>(src)
    }

    fn approx_from(src: usize) -> (r: Result<i8, Overflow>) {
        convert_or_overflow::<usize, i8>(src)
    }
}

impl ApproxFrom<usize, Wrapping> for i8 {
    type Err = NoError;

    open spec fn approx_from_spec(src: usize) -> Result<i8, NoError> {
        wrapping::<usize, i8>(src)
    }

    fn approx_from(src: usize) -> (r: Result<i8, NoError>) {
        convert_wrapping::<usize, i8>(src)
    }
}

// usize -> i16.  A `usize` is an `i16` unless it is too large.

impl ValueFrom<usize> for i16 {
    type Err = Overflow;

    open spec fn value_from_spec(src: usize) -> Result<i16, Overflow> {
        exact_or_overflow::<usize, i16>(src)
    }

    fn value_from(src: usize) -> (r: Result<i16, Overflow>) {
        convert_or_overflow::<usize, i16>(src)
    }
}

impl ExactInteger<usize> for i16 {
    proof fn lemma_value_from_is_exact(src: usize) {
    }
}

impl ApproxFrom<usize, DefaultApprox> for i16 {
    type Err = Overflow;

    open spec fn approx_from_spec(src: usize) -> Result<i16, Overflow> {
        exact_or_overflow::<usize, i16>(src)
    }

    fn approx_from(src: usize) -> (r: Result<i16, Overflow>) {
        convert_or_overflow::<usize, i16>(src)
    }
}

impl ApproxFrom<usize, Wrapping> for i16 {
    type Err = NoError;

    open spec fn approx_from_spec(src: usize) -> Result<i16, NoError> {
        wrapping::<usize, i16>(src)
    }

    fn approx_from(src: usize) -> (r: Result<i16, NoError>) {
        convert_wrapping::<usize, i16>(src)
    }
}

// usize -> i32.  A `usize` is an `i32` unless it is too large.

impl ValueFrom<usize> for i32 {
    type Err = Overflow;

    open spec fn value_from_spec(src: usize) -> Result<i32, Overflow> {
        exact_or_overflow::<usize, i32>(src)
    }

    fn value_from(src: usize) -> (r: Result<i32, Overflow>) {
        convert_or_overflow::<usize, i32>(src)
    }
}

impl ExactInteger<usize> for i32 {
    proof fn lemma_value_from_is_exact(src: usize) {
    }
}

impl ApproxFrom<usize, DefaultApprox> for i32 {
    type Err = Overflow;

    open spec fn approx_from_spec(src: usize) -> Result<i32, Overflow> {
        exact_or_overflow::<usize, i32>(src)
    }

    fn approx_from(src: usize) -> (r: Result<i32, Overflow>) {
        convert_or_overflow::<usize, i32>(src)
    }
}

impl ApproxFrom<usize, Wrapping> for i32 {
    type Err = NoError;

    open spec fn approx_from_spec(src: usize) -> Result<i32, NoError> {
        wrapping::<usize, i32>(src)
    }

    fn approx_from(src: usize) -> (r: Result<i32, NoError>) {
        convert_wrapping::<usize, i32>(src)
    }
}

// usize -> i64.  A `usize` is an `i64` unless it is too large.

impl ValueFrom<usize> for i64 {
    type Err = Overflow;

    open spec fn value_from_spec(src: usize) -> Result<i64, Overflow> {
        exact_or_overflow::<usize, i64>(src)
    }

    fn value_from(src: usize) -> (r: Result<i64, Overflow>) {
        convert_or_overflow::<usize, i64>(src)
    }
}

impl ExactInteger<usize> for i64 {
    proof fn lemma_value_from_is_exact(src: usize) {
    }
}

impl ApproxFrom<usize, DefaultApprox> for i64 {
    type Err = Overflow;

    open spec fn approx_from_spec(src: usize) -> Result<i64, Overflow> {
        exact_or_overflow::<usize, i64>(src)
    }

    fn approx_from(src: usize) -> (r: Result<i64, Overflow>) {
        convert_or_overflow::<usize, i64>(src)
    }
}

impl ApproxFrom<usize, Wrapping> for i64 {
    type Err = NoError;

    open spec fn approx_from_spec(src: usize) -> Result<i64, NoError> {
        wrapping::<usize, i64>(src)
    }

    fn approx_from(src: usize) -> (r: Result<i64, NoError>) {
        convert_wrapping::<usize, i64>(src)
    }
}

// usize -> isize.  A `usize` is an `isize` unless it is too large.

impl ValueFrom<usize> for isize {
    type Err = Overflow;

    open spec fn value_from_spec(src: usize) -> Result<isize, Overflow> {
        exact_or_overflow::<usize, isize>(src)
    }

    fn value_from(src: usize) -> (r: Result<isize, Overflow>) {
        convert_or_overflow::<usize, isize>(src)
    }
}

impl ExactInteger<usize> for isize {
    proof fn lemma_value_from_is_exact(src: usize) {
    }
}

impl ApproxFrom<usize, DefaultApprox> for isize {
    type Err = Overflow;

    open spec fn approx_from_spec(src: usize) -> Result<isize, Overflow> {
        exact_or_overflow::<usize, isize>(src)
    }

    fn approx_from(src: usize) -> (r: Result<isize, Overflow>) {
        convert_or_overflow::<usize, isize>(src)
    }
}

impl ApproxFrom<usize, Wrapping> for isize {
    type Err = NoError;

    open spec fn approx_from_spec(src: usize) -> Result<isize, NoError> {
        wrapping::<usize, isize>(src)
    }

    fn approx_from(src: usize) -> (r: Result<isize, NoError>) {
        convert_wrapping::<usize, isize>(src)
    }
}

// usize -> u8.  A `usize` is a `u8` unless it is too large.

impl ValueFrom<usize> for u8 {
    type Err = Overflow;

    open spec fn value_from_spec(src: usize) -> Result<u8, Overflow> {
        exact_or_overflow::<usize, u8>(src)
    }

    fn value_from(src: usize) -> (r: Result<u8, Overflow>) {
        convert_or_overflow::<usize, u8>(src)
    }
}

impl ExactInteger<usize> for u8 {
    proof fn lemma_value_from_is_exact(src: usize) {
    }
}

impl ApproxFrom<usize, DefaultApprox> for u8 {
    type Err = Overflow;

    open spec fn approx_from_spec(src: usize) -> Result<u8, Overflow> {
        exact_or_overflow::<usize, u8>(src)
    }

    fn approx_from(src: usize) -> (r: Result<u8, Overflow>) {
        convert_or_overflow::<usize, u8>(src)
    }
}

impl ApproxFrom<usize, Wrapping> for u8 {
    type Err = NoError;

    open spec fn approx_from_spec(src: usize) -> Result<u8, NoError> {
        wrapping::<usize, u8>(src)
    }

    fn approx_from(src: usize) -> (r: Result<u8, NoError>) {
        convert_wrapping::<usize, u8>(src)
    }
}

// usize -> u16.  A `usize` is a `u16` unless it is too large.

impl ValueFrom<usize> for u16 {
    type Err = Overflow;

    open spec fn value_from_spec(src: usize) -> Result<u16, Overflow> {
        exact_or_overflow::<usize, u16>(src)
    }

    fn value_from(src: usize) -> (r: Result<u16, Overflow>) {
        convert_or_overflow::<usize, u16>(src)
    }
}

impl ExactInteger<usize> for u16 {
    proof fn lemma_value_from_is_exact(src: usize) {
    }
}

impl ApproxFrom<usize, DefaultApprox> for u16 {
    type Err = Overflow;

    open spec fn approx_from_spec(src: usize) -> Result<u16, Overflow> {
        exact_or_overflow::<usize, u16>(src)
    }

    fn approx_from(src: usize) -> (r: Result<u16, Overflow>) {
        convert_or_overflow::<usize, u16>(src)
    }
}

impl ApproxFrom<usize, Wrapping> for u16 {
    type Err = NoError;

    open spec fn approx_from_spec(src: usize) -> Result<u16, NoError> {
        wrapping::<usize, u16>(src)
    }

    fn approx_from(src: usize) -> (r: Result<u16, NoError>) {
        convert_wrapping::<usize, u16>(src)
    }
}

// usize -> u32.  A `usize` is a `u32` unless it is too large.

impl ValueFrom<usize> for u32 {
    type Err = Overflow;

    open spec fn value_from_spec(src: usize) -> Result<u32, Overflow> {
        exact_or_overflow::<usize, u32>(src)
    }

    fn value_from(src: usize) -> (r: Result<u32, Overflow>) {
        convert_or_overflow::<usize, u32>(src)
    }
}

impl ExactInteger<usize> for u32 {
    proof fn lemma_value_from_is_exact(src: usize) {
    }
}

impl ApproxFrom<usize, DefaultApprox> for u32 {
    type Err = Overflow;

    open spec fn approx_from_spec(src: usize) -> Result<u32, Overflow> {
        exact_or_overflow::<usize, u32>(src)
    }

    fn approx_from(src: usize) -> (r: Result<u32, Overflow>) {
        convert_or_overflow::<usize, u32>(src)
    }
}

impl ApproxFrom<usize, Wrapping> for u32 {
    type Err = NoError;

    open spec fn approx_from_spec(src: usize) -> Result<u32, NoError> {
        wrapping::<usize, u32>(src)
    }

    fn approx_from(src: usize) -> (r: Result<u32, NoError>) {
        convert_wrapping::<usize, u32>(src)
    }
}

// usize -> u64.  Every `usize` is a `u64`.

impl ValueFrom<usize> for u64 {
    type Err = NoError;

    open spec fn value_from_spec(src: usize) -> Result<u64, NoError> {
        exact_always::<usize, u64>(src)
    }

    fn value_from(src: usize) -> (r: Result<u64, NoError>) {
        convert_always::<usize, u64>(src)
    }
}

impl ExactInteger<usize> for u64 {
    proof fn lemma_value_from_is_exact(src: usize) {
    }
}

impl ApproxFrom<usize, DefaultApprox> for u64 {
    type Err = NoError;

    open spec fn approx_from_spec(src: usize) -> Result<u64, NoError> {
        exact_always::<usize, u64>(src)
    }

    fn approx_from(src: usize) -> (r: Result<u64, NoError>) {
        convert_always::<usize, u64>(src)
    }
}

impl ApproxFrom<usize, Wrapping> for u64 {
    type Err = NoError;

    open spec fn approx_from_spec(src: usize) -> Result<u64, NoError> {
        wrapping::<usize, u64>(src)
    }

    fn approx_from(src: usize) -> (r: Result<u64, NoError>) {
        convert_wrapping::<usize, u64>(src)
    }
}

} // verus!
