//! The conversions from `u16` to the other integer types.
//!
//! The exact conversion and the default approximation are the same rule: an
//! integer needs no approximating, so all that is left is to see whether the
//! destination holds it.  The wrapping approximation never fails.

use crate::errors::{NoError, Overflow};
use crate::integer::{
    convert_always, convert_or_overflow, convert_wrapping, exact_always, exact_or_overflow,
    wrapping, ExactInteger,
};
use crate::{ApproxFrom, DefaultApprox, ValueFrom, Wrapping};
use vstd::prelude::*;

verus! {

// u16 -> i8.  A `u16` is an `i8` unless it is too large.

impl ValueFrom<u16> for i8 {
    type Err = Overflow;

    open spec fn value_from_spec(src: u16) -> Result<i8, Overflow> {
        exact_or_overflow::<u16, i8>(src)
    }

    fn value_from(src: u16) -> (r: Result<i8, Overflow>) {
        convert_or_overflow::<u16, i8>(src)
    }
}

impl ExactInteger<u16> for i8 {
    proof fn lemma_value_from_is_exact(src: u16) {
    }
}

impl ApproxFrom<u16, DefaultApprox> for i8 {
    type Err = Overflow;

    open spec fn approx_from_spec(src: u16) -> Result<i8, Overflow> {
        exact_or_overflow::<u16, i8>(src)
    }

    fn approx_from(src: u16) -> (r: Result<i8, Overflow>) {
        convert_or_overflow::<u16, i8>(src)
    }
}

impl ApproxFrom<u16, Wrapping> for i8 {
    type Err = NoError;

    open spec fn approx_from_spec(src: u16) -> Result<i8, NoError> {
        wrapping::<u16, i8>(src)
    }

    fn approx_from(src: u16) -> (r: Result<i8, NoError>) {
        convert_wrapping::<u16, i8>(src)
    }
}

// u16 -> i16.  A `u16` is an `i16` unless it is too large.

impl ValueFrom<u16> for i16 {
    type Err = Overflow;

    open spec fn value_from_spec(src: u16) -> Result<i16, Overflow> {
        exact_or_overflow::<u16, i16>(src)
    }

    fn value_from(src: u16) -> (r: Result<i16, Overflow>) {
        convert_or_overflow::<u16, i16>(src)
    }
}

impl ExactInteger<u16> for i16 {
    proof fn lemma_value_from_is_exact(src: u16) {
    }
}

impl ApproxFrom<u16, DefaultApprox> for i16 {
    type Err = Overflow;

    open spec fn approx_from_spec(src: u16) -> Result<i16, Overflow> {
        exact_or_overflow::<u16, i16>(src)
    }

    fn approx_from(src: u16) -> (r: Result<i16, Overflow>) {
        convert_or_overflow::<u16, i16>(src)
    }
}

impl ApproxFrom<u16, Wrapping> for i16 {
    type Err = NoError;

    open spec fn approx_from_spec(src: u16) -> Result<i16, NoError> {
        wrapping::<u16, i16>(src)
    }

    fn approx_from(src: u16) -> (r: Result<i16, NoError>) {
        convert_wrapping::<u16, i16>(src)
    }
}

// u16 -> i32.  Every `u16` is an `i32`.

impl ValueFrom<u16> for i32 {
    type Err = NoError;

    open spec fn value_from_spec(src: u16) -> Result<i32, NoError> {
        exact_always::<u16, i32>(src)
    }

    fn value_from(src: u16) -> (r: Result<i32, NoError>) {
        convert_always::<u16, i32>(src)
    }
}

impl ExactInteger<u16> for i32 {
    proof fn lemma_value_from_is_exact(src: u16) {
    }
}

impl ApproxFrom<u16, DefaultApprox> for i32 {
    type Err = NoError;

    open spec fn approx_from_spec(src: u16) -> Result<i32, NoError> {
        exact_always::<u16, i32>(src)
    }

    fn approx_from(src: u16) -> (r: Result<i32, NoError>) {
        convert_always::<u16, i32>(src)
    }
}

impl ApproxFrom<u16, Wrapping> for i32 {
    type Err = NoError;

    open spec fn approx_from_spec(src: u16) -> Result<i32, NoError> {
        wrapping::<u16, i32>(src)
    }

    fn approx_from(src: u16) -> (r: Result<i32, NoError>) {
        convert_wrapping::<u16, i32>(src)
    }
}

// u16 -> i64.  Every `u16` is an `i64`.

impl ValueFrom<u16> for i64 {
    type Err = NoError;

    open spec fn value_from_spec(src: u16) -> Result<i64, NoError> {
        exact_always::<u16, i64>(src)
    }

    fn value_from(src: u16) -> (r: Result<i64, NoError>) {
        convert_always::<u16, i64>(src)
    }
}

impl ExactInteger<u16> for i64 {
    proof fn lemma_value_from_is_exact(src: u16) {
    }
}

impl ApproxFrom<u16, DefaultApprox> for i64 {
    type Err = NoError;

    open spec fn approx_from_spec(src: u16) -> Result<i64, NoError> {
        exact_always::<u16, i64>(src)
    }

    fn approx_from(src: u16) -> (r: Result<i64, NoError>) {
        convert_always::<u16, i64>(src)
    }
}

impl ApproxFrom<u16, Wrapping> for i64 {
    type Err = NoError;

    open spec fn approx_from_spec(src: u16) -> Result<i64, NoError> {
        wrapping::<u16, i64>(src)
    }

    fn approx_from(src: u16) -> (r: Result<i64, NoError>) {
        convert_wrapping::<u16, i64>(src)
    }
}

// u16 -> isize.  Every `u16` is an `isize`.

impl ValueFrom<u16> for isize {
    type Err = NoError;

    open spec fn value_from_spec(src: u16) -> Result<isize, NoError> {
        exact_always::<u16, isize>(src)
    }

    fn value_from(src: u16) -> (r: Result<isize, NoError>) {
        convert_always::<u16, isize>(src)
    }
}

impl ExactInteger<u16> for isize {
    proof fn lemma_value_from_is_exact(src: u16) {
    }
}

impl ApproxFrom<u16, DefaultApprox> for isize {
    type Err = NoError;

    open spec fn approx_from_spec(src: u16) -> Result<isize, NoError> {
        exact_always::<u16, isize>(src)
    }

    fn approx_from(src: u16) -> (r: Result<isize, NoError>) {
        convert_always::<u16, isize>(src)
    }
}

impl ApproxFrom<u16, Wrapping> for isize {
    type Err = NoError;

    open spec fn approx_from_spec(src: u16) -> Result<isize, NoError> {
        wrapping::<u16, isize>(src)
    }

    fn approx_from(src: u16) -> (r: Result<isize, NoError>) {
        convert_wrapping::<u16, isize>(src)
    }
}

// u16 -> u8.  A `u16` is a `u8` unless it is too large.

impl ValueFrom<u16> for u8 {
    type Err = Overflow;

    open spec fn value_from_spec(src: u16) -> Result<u8, Overflow> {
        exact_or_overflow::<u16, u8>(src)
    }

    fn value_from(src: u16) -> (r: Result<u8, Overflow>) {
        convert_or_overflow::<u16, u8>(src)
    }
}

impl ExactInteger<u16> for u8 {
    proof fn lemma_value_from_is_exact(src: u16) {
    }
}

impl ApproxFrom<u16, DefaultApprox> for u8 {
    type Err = Overflow;

    open spec fn approx_from_spec(src: u16) -> Result<u8, Overflow> {
        exact_or_overflow::<u16, u8>(src)
    }

    fn approx_from(src: u16) -> (r: Result<u8, Overflow>) {
        convert_or_overflow::<u16, u8>(src)
    }
}

impl ApproxFrom<u16, Wrapping> for u8 {
    type Err = NoError;

    open spec fn approx_from_spec(src: u16) -> Result<u8, NoError> {
        wrapping::<u16, u8>(src)
    }

    fn approx_from(src: u16) -> (r: Result<u8, NoError>) {
        convert_wrapping::<u16, u8>(src)
    }
}

// u16 -> u32.  Every `u16` is a `u32`.

impl ValueFrom<u16> for u32 {
    type Err = NoError;

    open spec fn value_from_spec(src: u16) -> Result<u32, NoError> {
        exact_always::<u16, u32>(src)
    }

    fn value_from(src: u16) -> (r: Result<u32, NoError>) {
        convert_always::<u16, u32>(src)
    }
}

impl ExactInteger<u16> for u32 {
    proof fn lemma_value_from_is_exact(src: u16) {
    }
}

impl ApproxFrom<u16, DefaultApprox> for u32 {
    type Err = NoError;

    open spec fn approx_from_spec(src: u16) -> Result<u32, NoError> {
        exact_always::<u16, u32>(src)
    }

    fn approx_from(src: u16) -> (r: Result<u32, NoError>) {
        convert_always::<u16, u32>(src)
    }
}

impl ApproxFrom<u16, Wrapping> for u32 {
    type Err = NoError;

    open spec fn approx_from_spec(src: u16) -> Result<u32, NoError> {
        wrapping::<u16, u32>(src)
    }

    fn approx_from(src: u16) -> (r: Result<u32, NoError>) {
        convert_wrapping::<u16, u32>(src)
    }
}

// u16 -> u64.  Every `u16` is a `u64`.

impl ValueFrom<u16> for u64 {
    type Err = NoError;

    open spec fn value_from_spec(src: u16) -> Result<u64, NoError> {
        exact_always::<u16, u64>(src)
    }

    fn value_from(src: u16) -> (r: Result<u64, NoError>) {
        convert_always::<u16, u64>(src)
    }
}

impl ExactInteger<u16> for u64 {
    proof fn lemma_value_from_is_exact(src: u16) {
    }
}

impl ApproxFrom<u16, DefaultApprox> for u64 {
    type Err = NoError;

    open spec fn approx_from_spec(src: u16) -> Result<u64, NoError> {
        exact_always::<u16, u64>(src)
    }

    fn approx_from(src: u16) -> (r: Result<u64, NoError>) {
        convert_always::<u16, u64>(src)
    }
}

impl ApproxFrom<u16, Wrapping> for u64 {
    type Err = NoError;

    open spec fn approx_from_spec(src: u16) -> Result<u64, NoError> {
        wrapping::<u16, u64>(src)
    }

    fn approx_from(src: u16) -> (r: Result<u64, NoError>) {
        convert_wrapping::<u16, u64>(src)
    }
}

// u16 -> usize.  Every `u16` is a `usize`.

impl ValueFrom<u16> for usize {
    type Err = NoError;

    open spec fn value_from_spec(src: u16) -> Result<usize, NoError> {
        exact_always::<u16, usize>(src)
    }

    fn value_from(src: u16) -> (r: Result<usize, NoError>) {
        convert_always::<u16, usize>(src)
    }
}

impl ExactInteger<u16> for usize {
    proof fn lemma_value_from_is_exact(src: u16) {
    }
}

impl ApproxFrom<u16, DefaultApprox> for usize {
    type Err = NoError;

    open spec fn approx_from_spec(src: u16) -> Result<usize, NoError> {
        exact_always::<u16, usize>(src)
    }

    fn approx_from(src: u16) -> (r: Result<usize, NoError>) {
        convert_always::<u16, usize>(src)
    }
}

impl ApproxFrom<u16, Wrapping> for usize {
    type Err = NoError;

    open spec fn approx_from_spec(src: u16) -> Result<usize, NoError> {
        wrapping::<u16, usize>(src)
    }

    fn approx_from(src: u16) -> (r: Result<usize, NoError>) {
        convert_wrapping::<u16, usize>(src)
    }
}

} // verus!
