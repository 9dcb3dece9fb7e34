//! The conversions between the two floating point formats.
//!
//! Double precision holds every single precision number, so to widen is exact
//! and cannot fail, under every approximation scheme.  To narrow is to round,
//! and so an approximation only; it fails on a finite number beyond the range
//! of single precision.

use crate::errors::{NoError, RangeError};
use crate::float::between::{
    approx_narrowed, convert_float_narrowing, convert_float_widening, widened, Widening,
};
use crate::float::{F32, F64};
use crate::{ApproxFrom, ApproxScheme, DefaultApprox, ValueFrom};
use vstd::prelude::*;

verus! {

impl<Scheme> ApproxFrom<F32, Scheme> for F64 where Scheme: ApproxScheme {
    type Err = NoError;

    open spec fn approx_from_spec(src: F32) -> Result<F64, NoError> {
        widened::<F32, F64>(src)
    }

    fn approx_from(src: F32) -> (r: Result<F64, NoError>) {
        convert_float_widening::<F32, F64>(src)
    }
}

impl ValueFrom<F32> for F64 {
    type Err = NoError;

    open spec fn value_from_spec(src: F32) -> Result<F64, NoError> {
        widened::<F32, F64>(src)
    }

    fn value_from(src: F32) -> (r: Result<F64, NoError>) {
        convert_float_widening::<F32, F64>(src)
    }
}

impl Widening<F32> for F64 {
    proof fn lemma_value_from_widens(src: F32) {
    }
}

impl ApproxFrom<F64, DefaultApprox> for F32 {
    type Err = RangeError;

    open spec fn approx_from_spec(src: F64) -> Result<F32, RangeError> {
        approx_narrowed::<F64, F32>(src)
    }

    fn approx_from(src: F64) -> (r: Result<F32, RangeError>) {
        convert_float_narrowing::<F64, F32>(src)
    }
}

} // verus!
