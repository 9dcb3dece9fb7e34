//! The conversions from `u64` to the other integer types.
//!
//! The exact conversion and the default approximation are the same rule: an
//! integer needs no approximating, so all that is left is to see whether the
//! destination holds it.  The wrapping approximation never fails.

use crate::errors::{NoError, Overflow};
use crate::integer::{
    convert_or_overflow, convert_wrapping, exact_or_overflow, wrapping, ExactInteger,
};
use crate::{ApproxFrom, DefaultApprox, ValueFrom, Wrapping};
use vstd::prelude::*;

verus! {

// u64 -> i8.  A `u64` is an `i8` unless it is too large.

impl ValueFrom<u64> for i8 {
    type Err = Overflow;

    open spec fn value_from_spec(src: u64) -> Result<i8, Overflow> {
        exact_or_overflow::<u64, i8>(src)
    }

    fn value_from(src: u64) -> (r: Result<i8, Overflow>) {
        convert_or_overflow::<u64, i8>(src)
    }
}

impl ExactInteger<u64> for i8 {
    proof fn lemma_value_from_is_exact(src: u64) {
    }
}

impl ApproxFrom<u64, DefaultApprox> for i8 {
    type Err = Overflow;

    open spec fn approx_from_spec(src: u64) -> Result<i8, Overflow> {
        exact_or_overflow::<u64, i8>(src)
    }

    fn approx_from(src: u64) -> (r: Result<i8, Overflow>) {
        convert_or_overflow::<u64, i8>(src)
    }
}

impl ApproxFrom<u64, Wrapping> for i8 {
    type Err = NoError;

    open spec fn approx_from_spec(src: u64) -> Result<i8, NoError> {
        wrapping::<u64, i8>(src)
    }

    fn approx_from(src: u64) -> (r: Result<i8, NoError>) {
        convert_wrapping::<u64, i8>(src)
    }
}

// u64 -> i16.  A `u64` is an `i16` unless it is too large.

impl ValueFrom<u64> for i16 {
    type Err = Overflow;

    open spec fn value_from_spec(src: u64) -> Result<i16, Overflow> {
        exact_or_overflow::<u64, i16>(src)
    }

    fn value_from(src: u64) -> (r: Result<i16, Overflow>) {
        convert_or_overflow::<u64, i16>(src)
    }
}

impl ExactInteger<u64> for i16 {
    proof fn lemma_value_from_is_exact(src: u64) {
    }
}

impl ApproxFrom<u64, DefaultApprox> for i16 {
    type Err = Overflow;

    open spec fn approx_from_spec(src: u64) -> Result<i16, Overflow> {
        exact_or_overflow::<u64, i16>(src)
    }

    fn approx_from(src: u64) -> (r: Result<i16, Overflow>) {
        convert_or_overflow::<u64, i16>(src)
    }
}

impl ApproxFrom<u64, Wrapping> for i16 {
    type Err = NoError;

    open spec fn approx_from_spec(src: u64) -> Result<i16, NoError> {
        wrapping::<u64, i16>(src)
    }

    fn approx_from(src: u64) -> (r: Result<i16, NoError>) {
        convert_wrapping::<u64, i16>(src)
    }
}

// u64 -> i32.  A `u64` is an `i32` unless it is too large.

impl ValueFrom<u64> for i32 {
    type Err = Overflow;

    open spec fn value_from_spec(src: u64) -> Result<i32, Overflow> {
        exact_or_overflow::<u64, i32>(src)
    }

    fn value_from(src: u64) -> (r: Result<i32, Overflow>) {
        convert_or_overflow::<u64, i32>(src)
    }
}

impl ExactInteger<u64> for i32 {
    proof fn lemma_value_from_is_exact(src: u64) {
    }
}

impl ApproxFrom<u64, DefaultApprox> for i32 {
    type Err = Overflow;

    open spec fn approx_from_spec(src: u64) -> Result<i32, Overflow> {
        exact_or_overflow::<u64, i32>(src)
    }

    fn approx_from(src: u64) -> (r: Result<i32, Overflow>) {
        convert_or_overflow::<u64, i32>(src)
    }
}

impl ApproxFrom<u64, Wrapping> for i32 {
    type Err = NoError;

    open spec fn approx_from_spec(src: u64) -> Result<i32, NoError> {
        wrapping::<u64, i32>(src)
    }

    fn approx_from(src: u64) -> (r: Result<i32, NoError>) {
        convert_wrapping::<u64, i32>(src)
    }
}

// u64 -> i64.  A `u64` is an `i64` unless it is too large.

impl ValueFrom<u64> for i64 {
    type Err = Overflow;

    open spec fn value_from_spec(src: u64) -> Result<i64, Overflow> {
        exact_or_overflow::<u64, i64>(src)
    }

    fn value_from(src: u64) -> (r: Result<i64, Overflow>) {
        convert_or_overflow::<u64, i64>(src)
    }
}

impl ExactInteger<u64> for i64 {
    proof fn lemma_value_from_is_exact(src: u64) {
    }
}

impl ApproxFrom<u64, DefaultApprox> for i64 {
    type Err = Overflow;

    open spec fn approx_from_spec(src: u64) -> Result<i64, Overflow> {
        exact_or_overflow::<u64, i64>(src)
    }

    fn approx_from(src: u64) -> (r: Result<i64, Overflow>) {
        convert_or_overflow::<u64, i64>(src)
    }
}

impl ApproxFrom<u64, Wrapping> for i64 {
    type Err = NoError;

    open spec fn approx_from_spec(src: u64) -> Result<i64, NoError> {
        wrapping::<u64, i64>(src)
    }

    fn approx_from(src: u64) -> (r: Result<i64, NoError>) {
        convert_wrapping::<u64, i64>(src)
    }
}

// u64 -> isize.  A `u64` is an `isize` unless it is too large.

impl ValueFrom<u64> for isize {
    type Err = Overflow;

    open spec fn value_from_spec(src: u64) -> Result<isize, Overflow> {
        exact_or_overflow::<u64, isize>(src)
    }

    fn value_from(src: u64) -> (r: Result<isize, Overflow>) {
        convert_or_overflow::<u64, isize>(src)
    }
}

impl ExactInteger<u64> for isize {
    proof fn lemma_value_from_is_exact(src: u64) {
    }
}

impl ApproxFrom<u64, DefaultApprox> for isize {
    type Err = Overflow;

    open spec fn approx_from_spec(src: u64) -> Result<isize, Overflow> {
        exact_or_overflow::<u64, isize>(src)
    }

    fn approx_from(src: u64) -> (r: Result<isize, Overflow>) {
        convert_or_overflow::<u64, isize>(src)
    }
}

impl ApproxFrom<u64, Wrapping> for isize {
    type Err = NoError;

    open spec fn approx_from_spec(src: u64) -> Result<isize, NoError> {
        wrapping::<u64, isize>(src)
    }

    fn approx_from(src: u64) -> (r: Result<isize, NoError>) {
        convert_wrapping::<u64, isize>(src)
    }
}

// u64 -> u8.  A `u64` is a `u8` unless it is too large.

impl ValueFrom<u64> for u8 {
    type Err = Overflow;

    open spec fn value_from_spec(src: u64) -> Result<u8, Overflow> {
        exact_or_overflow::<u64, u8>(src)
    }

    fn value_from(src: u64) -> (r: Result<u8, Overflow>) {
        convert_or_overflow::<u64, u8>(src)
    }
}

impl ExactInteger<u64> for u8 {
    proof fn lemma_value_from_is_exact(src: u64) {
    }
}

impl ApproxFrom<u64, DefaultApprox> for u8 {
    type Err = Overflow;

    open spec fn approx_from_spec(src: u64) -> Result<u8, Overflow> {
        exact_or_overflow::<u64, u8>(src)
    }

    fn approx_from(src: u64) -> (r: Result<u8, Overflow>) {
        convert_or_overflow::<u64, u8>(src)
    }
}

impl ApproxFrom<u64, Wrapping> for u8 {
    type Err = NoError;

    open spec fn approx_from_spec(src: u64) -> Result<u8, NoError> {
        wrapping::<u64, u8>(src)
    }

    fn approx_from(src: u64) -> (r: Result<u8, NoError>) {
        convert_wrapping::<u64, u8>(src)
    }
}

// u64 -> u16.  A `u64` is a `u16` unless it is too large.

impl ValueFrom<u64> for u16 {
    type Err = Overflow;

    open spec fn value_from_spec(src: u64) -> Result<u16, Overflow> {
        exact_or_overflow::<u64, u16>(src)
    }

    fn value_from(src: u64) -> (r: Result<u16, Overflow>) {
        convert_or_overflow::<u64, u16>(src)
    }
}

impl ExactInteger<u64> for u16 {
    proof fn lemma_value_from_is_exact(src: u64) {
    }
}

impl ApproxFrom<u64, DefaultApprox> for u16 {
    type Err = Overflow;

    open spec fn approx_from_spec(src: u64) -> Result<u16, Overflow> {
        exact_or_overflow::<u64, u16>(src)
    }

    fn approx_from(src: u64) -> (r: Result<u16, Overflow>) {
        convert_or_overflow::<u64, u16>(src)
    }
}

impl ApproxFrom<u64, Wrapping> for u16 {
    type Err = NoError;

    open spec fn approx_from_spec(src: u64) -> Result<u16, NoError> {
        wrapping::<u64, u16>(src)
    }

    fn approx_from(src: u64) -> (r: Result<u16, NoError>) {
        convert_wrapping::<u64, u16>(src)
    }
}

// u64 -> u32.  A `u64` is a `u32` unless it is too large.

impl ValueFrom<u64> for u32 {
    type Err = Overflow;

    open spec fn value_from_spec(src: u64) -> Result<u32, Overflow> {
        exact_or_overflow::<u64, u32>(src)
    }

    fn value_from(src: u64) -> (r: Result<u32, Overflow>) {
        convert_or_overflow::<u64, u32>(src)
    }
}

impl ExactInteger<u64> for u32 {
    proof fn lemma_value_from_is_exact(src: u64) {
    }
}

impl ApproxFrom<u64, DefaultApprox> for u32 {
    type Err = Overflow;

    open spec fn approx_from_spec(src: u64) -> Result<u32, Overflow> {
        exact_or_overflow::<u64, u32>(src)
    }

    fn approx_from(src: u64) -> (r: Result<u32, Overflow>) {
        convert_or_overflow::<u64, u32>(src)
    }
}

impl ApproxFrom<u64, Wrapping> for u32 {
    type Err = NoError;

    open spec fn approx_from_spec(src: u64) -> Result<u32, NoError> {
        wrapping::<u64, u32>(src)
    }

    fn approx_from(src: u64) -> (r: Result<u32, NoError>) {
        convert_wrapping::<u64, u32>(src)
    }
}

// u64 -> usize.  A `u64` is a `usize` unless it is too large.

impl ValueFrom<u64> for usize {
    type Err = Overflow;

    open spec fn value_from_spec(src: u64) -> Result<usize, Overflow> {
        exact_or_overflow::<u64, usize>(src)
    }

    fn value_from(src: u64) -> (r: Result<usize, Overflow>) {
        convert_or_overflow::<u64, usize>(src)
    }
}

impl ExactInteger<u64> for usize {
    proof fn lemma_value_from_is_exact(src: u64) {
    }
}

impl ApproxFrom<u64, DefaultApprox> for usize {
    type Err = Overflow;

    open spec fn approx_from_spec(src: u64) -> Result<usize, Overflow> {
        exact_or_overflow::<u64, usize>(src)
    }

    fn approx_from(src: u64) -> (r: Result<usize, Overflow>) {
        convert_or_overflow::<u64, usize>(src)
    }
}

impl ApproxFrom<u64, Wrapping> for usize {
    type Err = NoError;

    open spec fn approx_from_spec(src: u64) -> Result<usize, NoError> {
        wrapping::<u64, usize>(src)
    }

    fn approx_from(src: u64) -> (r: Result<usize, NoError>) {
        convert_wrapping::<u64, usize>(src)
    }
}

} // verus!
