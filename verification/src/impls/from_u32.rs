//! The conversions from `u32` to the other integer types.
//!
//! The exact conversion and the default approximation are the same rule: an
//! integer needs no approximating, so all that is left is to see whether the
//! destination holds it.  The wrapping approximation never fails.

use crate::errors::{NoError, Overflow};
use crate::integer::{
    convert_always, convert_or_overflow, convert_wrapping, exact_always, exact_or_overflow,
    wrapping, ExactInteger,
};
use crate::{ApproxFrom, DefaultApprox, ValueFrom, Wrapping};
use vstd::prelude::*;

verus! {

// u32 -> i8.  A `u32` is an `i8` unless it is too large.

impl ValueFrom<u32> for i8 {
    type Err = Overflow;

    open spec fn value_from_spec(src: u32) -> Result<i8, Overflow> {
        exact_or_overflow::<u32, i8>(src)
    }

    fn value_from(src: u32) -> (r: Result<i8, Overflow>) {
        convert_or_overflow::<u32, i8>(src)
    }
}

impl ExactInteger<u32> for i8 {
    proof fn lemma_value_from_is_exact(src: u32) {
    }
}

impl ApproxFrom<u32, DefaultApprox> for i8 {
    type Err = Overflow;

    open spec fn approx_from_spec(src: u32) -> Result<i8, Overflow> {
        exact_or_overflow::<u32, i8>(src)
    }

    fn approx_from(src: u32) -> (r: Result<i8, Overflow>) {
        convert_or_overflow::<u32, i8>(src)
    }
}

impl ApproxFrom<u32, Wrapping> for i8 {
    type Err = NoError;

    open spec fn approx_from_spec(src: u32) -> Result<i8, NoError> {
        wrapping::<u32, i8>(src)
    }

    fn approx_from(src: u32) -> (r: Result<i8, NoError>) {
        convert_wrapping::<u32, i8>(src)
    }
}

// u32 -> i16.  A `u32` is an `i16` unless it is too large.

impl ValueFrom<u32> for i16 {
    type Err = Overflow;

    open spec fn value_from_spec(src: u32) -> Result<i16, Overflow> {
        exact_or_overflow::<u32, i16>(src)
    }

    fn value_from(src: u32) -> (r: Result<i16, Overflow>) {
        convert_or_overflow::<u32, i16>(src)
    }
}

impl ExactInteger<u32> for i16 {
    proof fn lemma_value_from_is_exact(src: u32) {
    }
}

impl ApproxFrom<u32, DefaultApprox> for i16 {
    type Err = Overflow;

    open spec fn approx_from_spec(src: u32) -> Result<i16, Overflow> {
        exact_or_overflow::<u32, i16>(src)
    }

    fn approx_from(src: u32) -> (r: Result<i16, Overflow>) {
        convert_or_overflow::<u32, i16>(src)
    }
}

impl ApproxFrom<u32, Wrapping> for i16 {
    type Err = NoError;

    open spec fn approx_from_spec(src: u32) -> Result<i16, NoError> {
        wrapping::<u32, i16>(src)
    }

    fn approx_from(src: u32) -> (r: Result<i16, NoError>) {
        convert_wrapping::<u32, i16>(src)
    }
}

// u32 -> i32.  A `u32` is an `i32` unless it is too large.

impl ValueFrom<u32> for i32 {
    type Err = Overflow;

    open spec fn value_from_spec(src: u32) -> Result<i32, Overflow> {
        exact_or_overflow::<u32, i32>(src)
    }

    fn value_from(src: u32) -> (r: Result<i32, Overflow>) {
        convert_or_overflow::<u32, i32>(src)
    }
}

impl ExactInteger<u32> for i32 {
    proof fn lemma_value_from_is_exact(src: u32) {
    }
}

impl ApproxFrom<u32, DefaultApprox> for i32 {
    type Err = Overflow;

    open spec fn approx_from_spec(src: u32) -> Result<i32, Overflow> {
        exact_or_overflow::<u32, i32>(src)
    }

    fn approx_from(src: u32) -> (r: Result<i32, Overflow>) {
        convert_or_overflow::<u32, i32>(src)
    }
}

impl ApproxFrom<u32, Wrapping> for i32 {
    type Err = NoError;

    open spec fn approx_from_spec(src: u32) -> Result<i32, NoError> {
        wrapping::<u32, i32>(src)
    }

    fn approx_from(src: u32) -> (r: Result<i32, NoError>) {
        convert_wrapping::<u32, i32>(src)
    }
}

// u32 -> i64.  Every `u32` is an `i64`.

impl ValueFrom<u32> for i64 {
    type Err = NoError;

    open spec fn value_from_spec(src: u32) -> Result<i64, NoError> {
        exact_always::<u32, i64>(src)
    }

    fn value_from(src: u32) -> (r: Result<i64, NoError>) {
        convert_always::<u32, i64>(src)
    }
}

impl ExactInteger<u32> for i64 {
    proof fn lemma_value_from_is_exact(src: u32) {
    }
}

impl ApproxFrom<u32, DefaultApprox> for i64 {
    type Err = NoError;

    open spec fn approx_from_spec(src: u32) -> Result<i64, NoError> {
        exact_always::<u32, i64>(src)
    }

    fn approx_from(src: u32) -> (r: Result<i64, NoError>) {
        convert_always::<u32, i64>(src)
    }
}

impl ApproxFrom<u32, Wrapping> for i64 {
    type Err = NoError;

    open spec fn approx_from_spec(src: u32) -> Result<i64, NoError> {
        wrapping::<u32, i64>(src)
    }

    fn approx_from(src: u32) -> (r: Result<i64, NoError>) {
        convert_wrapping::<u32, i64>(src)
    }
}

// u32 -> isize.  A `u32` is an `isize` unless it is too large.

impl ValueFrom<u32> for isize {
    type Err = Overflow;

    open spec fn value_from_spec(src: u32) -> Result<isize, Overflow> {
        exact_or_overflow::<u32, isize>(src)
    }

    fn value_from(src: u32) -> (r: Result<isize, Overflow>) {
        convert_or_overflow::<u32, isize>(src)
    }
}

impl ExactInteger<u32> for isize {
    proof fn lemma_value_from_is_exact(src: u32) {
    }
}

impl ApproxFrom<u32, DefaultApprox> for isize {
    type Err = Overflow;

    open spec fn approx_from_spec(src: u32) -> Result<isize, Overflow> {
        exact_or_overflow::<u32, isize>(src)
    }

    fn approx_from(src: u32) -> (r: Result<isize, Overflow>) {
        convert_or_overflow::<u32, isize>(src)
    }
}

impl ApproxFrom<u32, Wrapping> for isize {
    type Err = NoError;

    open spec fn approx_from_spec(src: u32) -> Result<isize, NoError> {
        wrapping::<u32, isize>(src)
    }

    fn approx_from(src: u32) -> (r: Result<isize, NoError>) {
        convert_wrapping::<u32, isize>(src)
    }
}

// u32 -> u8.  A `u32` is a `u8` unless it is too large.

impl ValueFrom<u32> for u8 {
    type Err = Overflow;

    open spec fn value_from_spec(src: u32) -> Result<u8, Overflow> {
        exact_or_overflow::<u32, u8>(src)
    }

    fn value_from(src: u32) -> (r: Result<u8, Overflow>) {
        convert_or_overflow::<u32, u8>(src)
    }
}

impl ExactInteger<u32> for u8 {
    proof fn lemma_value_from_is_exact(src: u32) {
    }
}

impl ApproxFrom<u32, DefaultApprox> for u8 {
    type Err = Overflow;

    open spec fn approx_from_spec(src: u32) -> Result<u8, Overflow> {
        exact_or_overflow::<u32, u8>(src)
    }

    fn approx_from(src: u32) -> (r: Result<u8, Overflow>) {
        convert_or_overflow::<u32, u8>(src)
    }
}

impl ApproxFrom<u32, Wrapping> for u8 {
    type Err = NoError;

    open spec fn approx_from_spec(src: u32) -> Result<u8, NoError> {
        wrapping::<u32, u8>(src)
    }

    fn approx_from(src: u32) -> (r: Result<u8, NoError>) {
        convert_wrapping::<u32, u8>(src)
    }
}

// u32 -> u16.  A `u32` is a `u16` unless it is too large.

impl ValueFrom<u32> for u16 {
    type Err = Overflow;

    open spec fn value_from_spec(src: u32) -> Result<u16, Overflow> {
        exact_or_overflow::<u32, u16>(src)
    }

    fn value_from(src: u32) -> (r: Result<u16, Overflow>) {
        convert_or_overflow::<u32, u16>(src)
    }
}

impl ExactInteger<u32> for u16 {
    proof fn lemma_value_from_is_exact(src: u32) {
    }
}

impl ApproxFrom<u32, DefaultApprox> for u16 {
    type Err = Overflow;

    open spec fn approx_from_spec(src: u32) -> Result<u16, Overflow> {
        exact_or_overflow::<u32, u16>(src)
    }

    fn approx_from(src: u32) -> (r: Result<u16, Overflow>) {
        convert_or_overflow::<u32, u16>(src)
    }
}

impl ApproxFrom<u32, Wrapping> for u16 {
    type Err = NoError;

    open spec fn approx_from_spec(src: u32) -> Result<u16, NoError> {
        wrapping::<u32, u16>(src)
    }

    fn approx_from(src: u32) -> (r: Result<u16, NoError>) {
        convert_wrapping::<u32, u16>(src)
    }
}

// u32 -> u64.  Every `u32` is a `u64`.

impl ValueFrom<u32> for u64 {
    type Err = NoError;

    open spec fn value_from_spec(src: u32) -> Result<u64, NoError> {
        exact_always::<u32, u64>(src)
    }

    fn value_from(src: u32) -> (r: Result<u64, NoError>) {
        convert_always::<u32, u64>(src)
    }
}

impl ExactInteger<u32> for u64 {
    proof fn lemma_value_from_is_exact(src: u32) {
    }
}

impl ApproxFrom<u32, DefaultApprox> for u64 {
    type Err = NoError;

    open spec fn approx_from_spec(src: u32) -> Result<u64, NoError> {
        exact_always::<u32, u64>(src)
    }

    fn approx_from(src: u32) -> (r: Result<u64, NoError>) {
        convert_always::<u32, u64>(src)
    }
}

impl ApproxFrom<u32, Wrapping> for u64 {
    type Err = NoError;

    open spec fn approx_from_spec(src: u32) -> Result<u64, NoError> {
        wrapping::<u32, u64>(src)
    }

    fn approx_from(src: u32) -> (r: Result<u64, NoError>) {
        convert_wrapping::<u32, u64>(src)
    }
}

// u32 -> usize.  Every `u32` is a `usize`.

impl ValueFrom<u32> for usize {
    type Err = NoError;

    open spec fn value_from_spec(src: u32) -> Result<usize, NoError> {
        exact_always::<u32, usize>(src)
    }

    fn value_from(src: u32) -> (r: Result<usize, NoError>) {
        convert_always::<u32, usize>(src)
    }
}

impl ExactInteger<u32> for usize {
    proof fn lemma_value_from_is_exact(src: u32) {
    }
}

impl ApproxFrom<u32, DefaultApprox> for usize {
    type Err = NoError;

    open spec fn approx_from_spec(src: u32) -> Result<usize, NoError> {
        exact_always::<u32, usize>(src)
    }

    fn approx_from(src: u32) -> (r: Result<usize, NoError>) {
        convert_always::<u32, usize>(src)
    }
}

impl ApproxFrom<u32, Wrapping> for usize {
    type Err = NoError;

    open spec fn approx_from_spec(src: u32) -> Result<usize, NoError> {
        wrapping::<u32, usize>(src)
    }

    fn approx_from(src: u32) -> (r: Result<usize, NoError>) {
        convert_wrapping::<u32, usize>(src)
    }
}

} // verus!
