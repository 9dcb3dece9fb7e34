//! The conversions from the floating point formats to the integer types.
//!
//! A floating point number is unlikely to be an integer, so it converts by
//! approximation only.  The default scheme drops the fractional part.

use crate::errors::FloatError;
use crate::float::to_integer::{approx_integer, convert_float_to_integer};
use crate::float::{F32, F64};
use crate::{ApproxFrom, DefaultApprox};
use vstd::prelude::*;

verus! {

impl ApproxFrom<F32, DefaultApprox> for i8 {
    type Err = FloatError;

    open spec fn approx_from_spec(src: F32) -> Result<i8, FloatError> {
        approx_integer::<F32, i8>(src)
    }

    fn approx_from(src: F32) -> (r: Result<i8, FloatError>) {
        convert_float_to_integer::<F32, i8>(src)
    }
}

impl ApproxFrom<F32, DefaultApprox> for i16 {
    type Err = FloatError;

    open spec fn approx_from_spec(src: F32) -> Result<i16, FloatError> {
        approx_integer::<F32, i16>(src)
    }

    fn approx_from(src: F32) -> (r: Result<i16, FloatError>) {
        convert_float_to_integer::<F32, i16>(src)
    }
}

impl ApproxFrom<F32, DefaultApprox> for i32 {
    type Err = FloatError;

    open spec fn approx_from_spec(src: F32) -> Result<i32, FloatError> {
        approx_integer::<F32, i32>(src)
    }

    fn approx_from(src: F32) -> (r: Result<i32, FloatError>) {
        convert_float_to_integer::<F32, i32>(src)
    }
}

impl ApproxFrom<F32, DefaultApprox> for i64 {
    type Err = FloatError;

    open spec fn approx_from_spec(src: F32) -> Result<i64, FloatError> {
        approx_integer::<F32, i64>(src)
    }

    fn approx_from(src: F32) -> (r: Result<i64, FloatError>) {
        convert_float_to_integer::<F32, i64>(src)
    }
}

impl ApproxFrom<F32, DefaultApprox> for isize {
    type Err = FloatError;

    open spec fn approx_from_spec(src: F32) -> Result<isize, FloatError> {
        approx_integer::<F32, isize>(src)
    }

    fn approx_from(src: F32) -> (r: Result<isize, FloatError>) {
        convert_float_to_integer::<F32, isize>(src)
    }
}

impl ApproxFrom<F32, DefaultApprox> for u8 {
    type Err = FloatError;

    open spec fn approx_from_spec(src: F32) -> Result<u8, FloatError> {
        approx_integer::<F32, u8>(src)
    }

    fn approx_from(src: F32) -> (r: Result<u8, FloatError>) {
        convert_float_to_integer::<F32, u8>(src)
    }
}

impl ApproxFrom<F32, DefaultApprox> for u16 {
    type Err = FloatError;

    open spec fn approx_from_spec(src: F32) -> Result<u16, FloatError> {
        approx_integer::<F32, u16>(src)
    }

    fn approx_from(src: F32) -> (r: Result<u16, FloatError>) {
        convert_float_to_integer::<F32, u16>(src)
    }
}

impl ApproxFrom<F32, DefaultApprox> for u32 {
    type Err = FloatError;

    open spec fn approx_from_spec(src: F32) -> Result<u32, FloatError> {
        approx_integer::<F32, u32>(src)
    }

    fn approx_from(src: F32) -> (r: Result<u32, FloatError>) {
        convert_float_to_integer::<F32, u32>(src)
    }
}

impl ApproxFrom<F32, DefaultApprox> for u64 {
    type Err = FloatError;

    open spec fn approx_from_spec(src: F32) -> Result<u64, FloatError> {
        approx_integer::<F32, u64>(src)
    }

    fn approx_from(src: F32) -> (r: Result<u64, FloatError>) {
        convert_float_to_integer::<F32, u64>(src)
    }
}

impl ApproxFrom<F32, DefaultApprox> for usize {
    type Err = FloatError;

    open spec fn approx_from_spec(src: F32) -> Result<usize, FloatError> {
        approx_integer::<F32, usize>(src)
    }

    fn approx_from(src: F32) -> (r: Result<usize, FloatError>) {
        convert_float_to_integer::<F32, usize>(src)
    }
}

impl ApproxFrom<F64, DefaultApprox> for i8 {
    type Err = FloatError;

    open spec fn approx_from_spec(src: F64) -> Result<i8, FloatError> {
        approx_integer::<F64, i8>(src)
    }

    fn approx_from(src: F64) -> (r: Result<i8, FloatError>) {
        convert_float_to_integer::<F64, i8>(src)
    }
}

impl ApproxFrom<F64, DefaultApprox> for i16 {
    type Err = FloatError;

    open spec fn approx_from_spec(src: F64) -> Result<i16, FloatError> {
        approx_integer::<F64, i16>(src)
    }

    fn approx_from(src: F64) -> (r: Result<i16, FloatError>) {
        convert_float_to_integer::<F64, i16>(src)
    }
}

impl ApproxFrom<F64, DefaultApprox> for i32 {
    type Err = FloatError;

    open spec fn approx_from_spec(src: F64) -> Result<i32, FloatError> {
        approx_integer::<F64, i32>(src)
    }

    fn approx_from(src: F64) -> (r: Result<i32, FloatError>) {
        convert_float_to_integer::<F64, i32>(src)
    }
}

impl ApproxFrom<F64, DefaultApprox> for i64 {
    type Err = FloatError;

    open spec fn approx_from_spec(src: F64) -> Result<i64, FloatError> {
        approx_integer::<F64, i64>(src)
    }

    fn approx_from(src: F64) -> (r: Result<i64, FloatError>) {
        convert_float_to_integer::<F64, i64>(src)
    }
}

impl ApproxFrom<F64, DefaultApprox> for isize {
    type Err = FloatError;

    open spec fn approx_from_spec(src: F64) -> Result<isize, FloatError> {
        approx_integer::<F64, isize>(src)
    }

    fn approx_from(src: F64) -> (r: Result<isize, FloatError>) {
        convert_float_to_integer::<F64, isize>(src)
    }
}

impl ApproxFrom<F64, DefaultApprox> for u8 {
    type Err = FloatError;

    open spec fn approx_from_spec(src: F64) -> Result<u8, FloatError> {
        approx_integer::<F64, u8>(src)
    }

    fn approx_from(src: F64) -> (r: Result<u8, FloatError>) {
        convert_float_to_integer::<F64, u8>(src)
    }
}

impl ApproxFrom<F64, DefaultApprox> for u16 {
    type Err = FloatError;

    open spec fn approx_from_spec(src: F64) -> Result<u16, FloatError> {
        approx_integer::<F64, u16>(src)
    }

    fn approx_from(src: F64) -> (r: Result<u16, FloatError>) {
        convert_float_to_integer::<F64, u16>(src)
    }
}

impl ApproxFrom<F64, DefaultApprox> for u32 {
    type Err = FloatError;

    open spec fn approx_from_spec(src: F64) -> Result<u32, FloatError> {
        approx_integer::<F64, u32>(src)
    }

    fn approx_from(src: F64) -> (r: Result<u32, FloatError>) {
        convert_float_to_integer::<F64, u32>(src)
    }
}

impl ApproxFrom<F64, DefaultApprox> for u64 {
    type Err = FloatError;

    open spec fn approx_from_spec(src: F64) -> Result<u64, FloatError> {
        approx_integer::<F64, u64>(src)
    }

    fn approx_from(src: F64) -> (r: Result<u64, FloatError>) {
        convert_float_to_integer::<F64, u64>(src)
    }
}

impl ApproxFrom<F64, DefaultApprox> for usize {
    type Err = FloatError;

    open spec fn approx_from_spec(src: F64) -> Result<usize, FloatError> {
        approx_integer::<F64, usize>(src)
    }

    fn approx_from(src: F64) -> (r: Result<usize, FloatError>) {
        convert_float_to_integer::<F64, usize>(src)
    }
}

} // verus!
