//! The conversions from `u8` to the other integer types.
//!
//! The exact conversion and the default approximation are the same rule: an
//! integer needs no approximating, so all that is left is to see whether the
//! destination holds it.  The wrapping approximation never fails.

use crate::errors::{NoError, Overflow};
use crate::integer::{
    convert_always, convert_or_overflow, convert_wrapping, exact_always, exact_or_overflow,
    wrapping, ExactInteger,
};
use crate::{ApproxFrom, DefaultApprox, ValueFrom, Wrapping};
use vstd::prelude::*;

verus! {

// u8 -> i8.  A `u8` is an `i8` unless it is too large.

impl ValueFrom<u8> for i8 {
    type Err = Overflow;

    open spec fn value_from_spec(src: u8) -> Result<i8, Overflow> {
        exact_or_overflow::<u8, i8>(src)
    }

    fn value_from(src: u8) -> (r: Result<i8, Overflow>) {
        convert_or_overflow::<u8, i8>(src)
    }
}

impl ExactInteger<u8> for i8 {
    proof fn lemma_value_from_is_exact(src: u8) {
    }
}

impl ApproxFrom<u8, DefaultApprox> for i8 {
    type Err = Overflow;

    open spec fn approx_from_spec(src: u8) -> Result<i8, Overflow> {
        exact_or_overflow::<u8, i8>(src)
    }

    fn approx_from(src: u8) -> (r: Result<i8, Overflow>) {
        convert_or_overflow::<u8, i8>(src)
    }
}

impl ApproxFrom<u8, Wrapping> for i8 {
    type Err = NoError;

    open spec fn approx_from_spec(src: u8) -> Result<i8, NoError> {
        wrapping::<u8, i8>(src)
    }

    fn approx_from(src: u8) -> (r: Result<i8, NoError>) {
        convert_wrapping::<u8, i8>(src)
    }
}

// u8 -> i16.  Every `u8` is an `i16`.

impl ValueFrom<u8> for i16 {
    type Err = NoError;

    open spec fn value_from_spec(src: u8) -> Result<i16, NoError> {
        exact_always::<u8, i16>(src)
    }

    fn value_from(src: u8) -> (r: Result<i16, NoError>) {
        convert_always::<u8, i16>(src)
    }
}

impl ExactInteger<u8> for i16 {
    proof fn lemma_value_from_is_exact(src: u8) {
    }
}

impl ApproxFrom<u8, DefaultApprox> for i16 {
    type Err = NoError;

    open spec fn approx_from_spec(src: u8) -> Result<i16, NoError> {
        exact_always::<u8, i16>(src)
    }

    fn approx_from(src: u8) -> (r: Result<i16, NoError>) {
        convert_always::<u8, i16>(src)
    }
}

impl ApproxFrom<u8, Wrapping> for i16 {
    type Err = NoError;

    open spec fn approx_from_spec(src: u8) -> Result<i16, NoError> {
        wrapping::<u8, i16>(src)
    }

    fn approx_from(src: u8) -> (r: Result<i16, NoError>) {
        convert_wrapping::<u8, i16>(src)
    }
}

// u8 -> i32.  Every `u8` is an `i32`.

impl ValueFrom<u8> for i32 {
    type Err = NoError;

    open spec fn value_from_spec(src: u8) -> Result<i32, NoError> {
        exact_always::<u8, i32>(src)
    }

    fn value_from(src: u8) -> (r: Result<i32, NoError>) {
        convert_always::<u8, i32>(src)
    }
}

impl ExactInteger<u8> for i32 {
    proof fn lemma_value_from_is_exact(src: u8) {
    }
}

impl ApproxFrom<u8, DefaultApprox> for i32 {
    type Err = NoError;

    open spec fn approx_from_spec(src: u8) -> Result<i32, NoError> {
        exact_always::<u8, i32>(src)
    }

    fn approx_from(src: u8) -> (r: Result<i32, NoError>) {
        convert_always::<u8, i32>(src)
    }
}

impl ApproxFrom<u8, Wrapping> for i32 {
    type Err = NoError;

    open spec fn approx_from_spec(src: u8) -> Result<i32, NoError> {
        wrapping::<u8, i32>(src)
    }

    fn approx_from(src: u8) -> (r: Result<i32, NoError>) {
        convert_wrapping::<u8, i32>(src)
    }
}

// u8 -> i64.  Every `u8` is an `i64`.

impl ValueFrom<u8> for i64 {
    type Err = NoError;

    open spec fn value_from_spec(src: u8) -> Result<i64, NoError> {
        exact_always::<u8, i64>(src)
    }

    fn value_from(src: u8) -> (r: Result<i64, NoError>) {
        convert_always::<u8, i64>(src)
    }
}

impl ExactInteger<u8> for i64 {
    proof fn lemma_value_from_is_exact(src: u8) {
    }
}

impl ApproxFrom<u8, DefaultApprox> for i64 {
    type Err = NoError;

    open spec fn approx_from_spec(src: u8) -> Result<i64, NoError> {
        exact_always::<u8, i64>(src)
    }

    fn approx_from(src: u8) -> (r: Result<i64, NoError>) {
        convert_always::<u8, i64>(src)
    }
}

impl ApproxFrom<u8, Wrapping> for i64 {
    type Err = NoError;

    open spec fn approx_from_spec(src: u8) -> Result<i64, NoError> {
        wrapping::<u8, i64>(src)
    }

    fn approx_from(src: u8) -> (r: Result<i64, NoError>) {
        convert_wrapping::<u8, i64>(src)
    }
}

// u8 -> isize.  Every `u8` is an `isize`.

impl ValueFrom<u8> for isize {
    type Err = NoError;

    open spec fn value_from_spec(src: u8) -> Result<isize, NoError> {
        exact_always::<u8, isize>(src)
    }

    fn value_from(src: u8) -> (r: Result<isize, NoError>) {
        convert_always::<u8, isize>(src)
    }
}

impl ExactInteger<u8> for isize {
    proof fn lemma_value_from_is_exact(src: u8) {
    }
}

impl ApproxFrom<u8, DefaultApprox> for isize {
    type Err = NoError;

    open spec fn approx_from_spec(src: u8) -> Result<isize, NoError> {
        exact_always::<u8, isize>(src)
    }

    fn approx_from(src: u8) -> (r: Result<isize, NoError>) {
        convert_always::<u8, isize>(src)
    }
}

impl ApproxFrom<u8, Wrapping> for isize {
    type Err = NoError;

    open spec fn approx_from_spec(src: u8) -> Result<isize, NoError> {
        wrapping::<u8, isize>(src)
    }

    fn approx_from(src: u8) -> (r: Result<isize, NoError>) {
        convert_wrapping::<u8, isize>(src)
    }
}

// u8 -> u16.  Every `u8` is a `u16`.

impl ValueFrom<u8> for u16 {
    type Err = NoError;

    open spec fn value_from_spec(src: u8) -> Result<u16, NoError> {
        exact_always::<u8, u16>(src)
    }

    fn value_from(src: u8) -> (r: Result<u16, NoError>) {
        convert_always::<u8, u16>(src)
    }
}

impl ExactInteger<u8> for u16 {
    proof fn lemma_value_from_is_exact(src: u8) {
    }
}

impl ApproxFrom<u8, DefaultApprox> for u16 {
    type Err = NoError;

    open spec fn approx_from_spec(src: u8) -> Result<u16, NoError> {
        exact_always::<u8, u16>(src)
    }

    fn approx_from(src: u8) -> (r: Result<u16, NoError>) {
        convert_always::<u8, u16>(src)
    }
}

impl ApproxFrom<u8, Wrapping> for u16 {
    type Err = NoError;

    open spec fn approx_from_spec(src: u8) -> Result<u16, NoError> {
        wrapping::<u8, u16>(src)
    }

    fn approx_from(src: u8) -> (r: Result<u16, NoError>) {
        convert_wrapping::<u8, u16>(src)
    }
}

// u8 -> u32.  Every `u8` is a `u32`.

impl ValueFrom<u8> for u32 {
    type Err = NoError;

    open spec fn value_from_spec(src: u8) -> Result<u32, NoError> {
        exact_always::<u8, u32>(src)
    }

    fn value_from(src: u8) -> (r: Result<u32, NoError>) {
        convert_always::<u8, u32>(src)
    }
}

impl ExactInteger<u8> for u32 {
    proof fn lemma_value_from_is_exact(src: u8) {
    }
}

impl ApproxFrom<u8, DefaultApprox> for u32 {
    type Err = NoError;

    open spec fn approx_from_spec(src: u8) -> Result<u32, NoError> {
        exact_always::<u8, u32>(src)
    }

    fn approx_from(src: u8) -> (r: Result<u32, NoError>) {
        convert_always::<u8, u32>(src)
    }
}

impl ApproxFrom<u8, Wrapping> for u32 {
    type Err = NoError;

    open spec fn approx_from_spec(src: u8) -> Result<u32, NoError> {
        wrapping::<u8, u32>(src)
    }

    fn approx_from(src: u8) -> (r: Result<u32, NoError>) {
        convert_wrapping::<u8, u32>(src)
    }
}

// u8 -> u64.  Every `u8` is a `u64`.

impl ValueFrom<u8> for u64 {
    type Err = NoError;

    open spec fn value_from_spec(src: u8) -> Result<u64, NoError> {
        exact_always::<u8, u64>(src)
    }

    fn value_from(src: u8) -> (r: Result<u64, NoError>) {
        convert_always::<u8, u64>(src)
    }
}

impl ExactInteger<u8> for u64 {
    proof fn lemma_value_from_is_exact(src: u8) {
    }
}

impl ApproxFrom<u8, DefaultApprox> for u64 {
    type Err = NoError;

    open spec fn approx_from_spec(src: u8) -> Result<u64, NoError> {
        exact_always::<u8, u64>(src)
    }

    fn approx_from(src: u8) -> (r: Result<u64, NoError>) {
        convert_always::<u8, u64>(src)
    }
}

impl ApproxFrom<u8, Wrapping> for u64 {
    type Err = NoError;

    open spec fn approx_from_spec(src: u8) -> Result<u64, NoError> {
        wrapping::<u8, u64>(src)
    }

    fn approx_from(src: u8) -> (r: Result<u64, NoError>) {
        convert_wrapping::<u8, u64>(src)
    }
}

// u8 -> usize.  Every `u8` is a `usize`.

impl ValueFrom<u8> for usize {
    type Err = NoError;

    open spec fn value_from_spec(src: u8) -> Result<usize, NoError> {
        exact_always::<u8, usize>(src)
    }

    fn value_from(src: u8) -> (r: Result<usize, NoError>) {
        convert_always::<u8, usize>(src)
    }
}

impl ExactInteger<u8> for usize {
    proof fn lemma_value_from_is_exact(src: u8) {
    }
}

impl ApproxFrom<u8, DefaultApprox> for usize {
    type Err = NoError;

    open spec fn approx_from_spec(src: u8) -> Result<usize, NoError> {
        exact_always::<u8, usize>(src)
    }

    fn approx_from(src: u8) -> (r: Result<usize, NoError>) {
        convert_always::<u8, usize>(src)
    }
}

impl ApproxFrom<u8, Wrapping> for usize {
    type Err = NoError;

    open spec fn approx_from_spec(src: u8) -> Result<usize, NoError> {
        wrapping::<u8, usize>(src)
    }

    fn approx_from(src: u8) -> (r: Result<usize, NoError>) {
        convert_wrapping::<u8, usize>(src)
    }
}

} // verus!
