//! The conversion of an integer to a floating point number.
//!
//! A format holds every integer up to a bound, and beyond it only some.  The
//! exact conversion is refused beyond the bound; the approximation gives the
//! nearest number.  Within the bound the number stands for the integer, and
//! the integer comes back from it.

use crate::errors::{FloatError, NoError, Overflow, RangeError};
use crate::float::{
    is_finite, max_exponent, power_of_two, scale, scaled_eq, signed_significand, significand, Float,
};
use crate::float::rounding::{
    bit_length, last_place, lemma_bit_length, lemma_nearest_is_finite, lemma_nearest_value,
    lemma_units_exact, lemma_units_in_last_place, nearest, round_to_float, units_in_last_place,
};
use crate::float::to_integer::{approx_integer, lemma_stands_for, stands_for};
use crate::integer::{ExactInteger, Integer};
use crate::ValueFrom;
use vstd::arithmetic::power2::{
    lemma2_to64, lemma_pow2_adds, lemma_pow2_pos, lemma_pow2_strictly_increases, pow2,
};
use vstd::prelude::*;

verus! {

/// How far `v` is from zero.
pub open spec fn magnitude(v: int) -> nat {
    if v < 0 {
        (-v) as nat
    } else {
        v as nat
    }
}

/// The number of `F` nearest to the integer `v`.
pub open spec fn nearest_to_integer<F: Float>(v: int) -> F {
    nearest::<F>(v < 0, magnitude(v), 0)
}

/// The bound of the integers that `F` holds without a gap: every integer from
/// minus the bound to the bound is a number of `F`, and the one next above the
/// bound is not.  It is 2^24 for single and 2^53 for double precision.
pub open spec fn exact_bound<F: Float>() -> int {
    pow2(F::fraction_bits() + 1) as int
}

/// The approximation of an integer by a floating point number: the nearest
/// one.  It never fails.
pub open spec fn approx_float<S: Integer, F: Float>(src: S) -> Result<F, NoError> {
    Ok(nearest_to_integer::<F>(src.value()))
}

/// The exact conversion of an integer to a floating point number: it is
/// refused beyond the bound up to which `F` holds every integer.
pub open spec fn exact_float<S: Integer, F: Float>(src: S) -> Result<F, RangeError> {
    if src.value() < -exact_bound::<F>() {
        Err(RangeError::Underflow)
    } else if src.value() > exact_bound::<F>() {
        Err(RangeError::Overflow)
    } else {
        Ok(nearest_to_integer::<F>(src.value()))
    }
}

/// The exact conversion from a type whose values can only be too large.
pub open spec fn exact_float_or_overflow<S: Integer, F: Float>(src: S) -> Result<F, Overflow> {
    if src.value() > exact_bound::<F>() {
        Err(Overflow)
    } else {
        Ok(nearest_to_integer::<F>(src.value()))
    }
}

/// The exact conversion from a type whose values all lie within the bound.
pub open spec fn exact_float_always<S: Integer, F: Float>(src: S) -> Result<F, NoError> {
    Ok(nearest_to_integer::<F>(src.value()))
}

/// Returns the number of `F` nearest to the integer `w`.
fn round_integer<F: Float>(w: i128) -> (x: F)
    requires
        i64::MIN <= w <= u64::MAX,
    ensures
        x == nearest_to_integer::<F>(w as int),
{
    if w < 0 {
        round_to_float::<F>(true, (-w) as u64, 0)
    } else {
        round_to_float::<F>(false, w as u64, 0)
    }
}

/// Returns the bound of the integers that `F` holds without a gap.
fn exact_limit<F: Float>() -> (bound: i128)
    ensures
        bound == exact_bound::<F>(),
        0 < bound <= 0x20_0000_0000_0000,
{
    proof {
        F::lemma_format();
        lemma_pow2_adds(F::fraction_bits(), 1);
        lemma2_to64();
        vstd::arithmetic::power2::lemma2_to64_rest();
        if F::fraction_bits() < 52 {
            lemma_pow2_strictly_increases(F::fraction_bits() + 1, 53);
        }
    }
    (power_of_two(F::fraction_width()) * 2) as i128
}

/// Converts an integer to the nearest floating point number.
pub fn convert_integer_to_float<S: Integer, F: Float>(src: S) -> (r: Result<F, NoError>)
    ensures
        r == approx_float::<S, F>(src),
{
    proof {
        S::lemma_bounds();
    }
    Ok(round_integer::<F>(src.to_wide()))
}

/// Converts an integer to the floating point number that stands for it, if it
/// lies within the bound up to which `F` holds every integer.
pub fn convert_integer_to_float_checked<S: Integer, F: Float>(src: S) -> (r: Result<F, RangeError>)
    ensures
        r == exact_float::<S, F>(src),
{
    proof {
        S::lemma_bounds();
    }
    let w = src.to_wide();
    let bound = exact_limit::<F>();
    if w < -bound {
        Err(RangeError::Underflow)
    } else if w > bound {
        Err(RangeError::Overflow)
    } else {
        Ok(round_integer::<F>(w))
    }
}

/// Converts an integer to the floating point number that stands for it, from
/// a type whose values can only be too large.
pub fn convert_integer_to_float_or_overflow<S: Integer, F: Float>(src: S) -> (r: Result<
    F,
    Overflow,
>)
    requires
        -exact_bound::<F>() <= S::min_value(),
    ensures
        r == exact_float_or_overflow::<S, F>(src),
{
    proof {
        S::lemma_bounds();
    }
    let w = src.to_wide();
    if w > exact_limit::<F>() {
        Err(Overflow)
    } else {
        Ok(round_integer::<F>(w))
    }
}

/// Converts an integer to the floating point number that stands for it, from
/// a type whose values all lie within the bound.
pub fn convert_integer_to_float_always<S: Integer, F: Float>(src: S) -> (r: Result<F, NoError>)
    requires
        -exact_bound::<F>() <= S::min_value(),
        S::max_value() <= exact_bound::<F>(),
    ensures
        r == exact_float_always::<S, F>(src),
{
    proof {
        S::lemma_bounds();
    }
    Ok(round_integer::<F>(src.to_wide()))
}

/// Every integer up to the bound of a format is a number of the format: the
/// number nearest to it stands for it.
pub proof fn lemma_integer_is_exact<F: Float>(v: int)
    requires
        -exact_bound::<F>() <= v <= exact_bound::<F>(),
    ensures
        stands_for(nearest_to_integer::<F>(v), v),
        v != 0 ==> nearest_to_integer::<F>(v).is_negative() == (v < 0),
        v != 0 ==> ({
            let place = last_place::<F>(bit_length(magnitude(v)) + 0int);
            let units = units_in_last_place::<F>(magnitude(v), 0);
            &&& significand(nearest_to_integer::<F>(v)) == units
            &&& scale(nearest_to_integer::<F>(v)) == place
            &&& scaled_eq(units, place, magnitude(v), 0)
        }),
{
    F::lemma_format();
    let p = F::fraction_bits();
    let n = magnitude(v);
    let y = nearest_to_integer::<F>(v);
    lemma_pow2_pos(p);
    if n == 0 {
        lemma_pow2_pos((-scale(y)) as nat);
        assert(0 * pow2((-scale(y)) as nat) == 0) by (nonlinear_arith);
    } else {
        let len = bit_length(n);
        let place = last_place::<F>(len + 0int);
        lemma_bit_length(n);
        lemma_pow2_adds(p, 1);
        // An integer within the bound has no more than p + 2 bits, and if it
        // has as many it is the bound itself.
        if len > p + 2 {
            lemma_pow2_strictly_increases(p + 1, (len - 1) as nat);
        }
        lemma2_to64();
        if len == p + 2 {
            assert(pow2((len - 1) as nat) == pow2(p + 1));
            assert(n == 2 * pow2(p));
            assert(place == 1);
            vstd::arithmetic::div_mod::lemma_fundamental_div_mod_converse(
                n as int,
                2,
                pow2(p) as int,
                0,
            );
        }
        lemma_units_exact::<F>(n, 0);
        lemma_units_in_last_place::<F>(n, 0);
        let units = units_in_last_place::<F>(n, 0);
        let implied = pow2(p);
        vstd::arithmetic::div_mod::lemma_div_is_ordered(
            units as int,
            2 * implied as int,
            implied as int,
        );
        vstd::arithmetic::div_mod::lemma_div_multiples_vanish(2, implied as int);
        let exponent = place + p + F::bias() - 1 + units / implied;
        assert(exponent < max_exponent::<F>());
        assert(y == F::from_parts(v < 0, exponent as nat, units % implied));
        lemma_nearest_value::<F>(v < 0, n, 0);
        if place >= 0 {
            assert(signed_significand(y) * pow2(place as nat) == v) by (nonlinear_arith)
                requires
                    units * pow2(place as nat) == n,
                    signed_significand(y) == if v < 0 {
                        -(units as int)
                    } else {
                        units as int
                    },
                    n == if v < 0 {
                        -v
                    } else {
                        v
                    },
            ;
        } else {
            assert(signed_significand(y) == v * pow2((-place) as nat)) by (nonlinear_arith)
                requires
                    units == n * pow2((-place) as nat),
                    signed_significand(y) == if v < 0 {
                        -(units as int)
                    } else {
                        units as int
                    },
                    n == if v < 0 {
                        -v
                    } else {
                        v
                    },
            ;
        }
    }
}

/// An integer that converts exactly to a floating point number comes back
/// from it: the approximation of that number in the type it came from is the
/// integer, unchanged.
pub proof fn lemma_integer_round_trip<S: Integer, F: Float>(src: S)
    ensures
        exact_float::<S, F>(src) matches Ok(x) ==> approx_integer::<F, S>(x) == Ok::<
            S,
            FloatError,
        >(src),
{
    S::lemma_bounds();
    F::lemma_format();
    let v = src.value();
    if -exact_bound::<F>() <= v <= exact_bound::<F>() {
        let x = nearest_to_integer::<F>(v);
        lemma_integer_is_exact::<F>(v);
        lemma_stands_for(x, v, S::min_value());
        lemma_stands_for(x, v, S::max_value());
    }
}

/// An exact conversion to an integer type on the way changes nothing: where
/// `a` converts exactly to `b`, both convert to the same floating point
/// number, exactly and approximately.
pub proof fn lemma_exact_float_chain<A: Integer, B: Integer, F: Float>(a: A)
    ensures
        crate::integer::exact::<A, B>(a) matches Ok(b) ==> exact_float::<B, F>(b) == exact_float::<
            A,
            F,
        >(a) && approx_float::<B, F>(b) == approx_float::<A, F>(a),
{
    A::lemma_bounds();
    B::lemma_bounds();
}

/// The approximation of an integer is a finite number: no integer of 64 bits
/// is too large for a format.
pub proof fn lemma_approx_float_is_finite<S: Integer, F: Float>(src: S)
    ensures
        approx_float::<S, F>(src) matches Ok(x) && is_finite(x),
{
    S::lemma_bounds();
    F::lemma_format();
    let n = magnitude(src.value());
    lemma_pow2_pos(F::fraction_bits());
    if n > 0 {
        lemma_bit_length(n);
        lemma2_to64();
        if bit_length(n) > 65 {
            lemma_pow2_strictly_increases(64, (bit_length(n) - 1) as nat);
        }
        lemma_nearest_is_finite::<F>(src.value() < 0, n, 0);
    }
}

/// The exact conversion from the integer type `Src` into the format is the
/// exact conversion of the integers to floating point numbers: `value_from`
/// succeeds where `exact_float` does, with the same number.  The rule tables
/// show it of each pair.
pub trait ExactFloat<Src: Integer>: Float + ValueFrom<Src> {
    /// `value_from` follows `exact_float`.
    proof fn lemma_value_from_is_exact(src: Src)
        ensures
            match Self::value_from_spec(src) {
                Ok(x) => exact_float::<Src, Self>(src) == Ok::<Self, RangeError>(x),
                Err(_) => exact_float::<Src, Self>(src) is Err,
            },
    ;
}

/// Exact conversions compose by way of an integer type, whatever the types:
/// where `a` converts to the integer `b` and `b` to the number `c`, the direct
/// conversion of `a` succeeds too and gives the same `c`, which stands for the
/// integer that `a` stands for.
pub proof fn lemma_value_from_chain_to_float<A, B, C>(a: A) where
    A: Integer,
    B: ExactInteger<A>,
    C: ExactFloat<B> + ExactFloat<A>,

    ensures
        match <B as ValueFrom<A>>::value_from_spec(a) {
            Ok(b) => match <C as ValueFrom<B>>::value_from_spec(b) {
                Ok(c) => {
                    &&& <C as ValueFrom<A>>::value_from_spec(a) matches Ok(direct)
                    &&& direct == c
                    &&& b.value() == a.value()
                    &&& stands_for(c, a.value())
                },
                Err(_) => true,
            },
            Err(_) => true,
        },
{
    A::lemma_bounds();
    B::lemma_bounds();
    <B as ExactInteger<A>>::lemma_value_from_is_exact(a);
    <C as ExactFloat<A>>::lemma_value_from_is_exact(a);
    if let Ok(b) = <B as ValueFrom<A>>::value_from_spec(a) {
        <C as ExactFloat<B>>::lemma_value_from_is_exact(b);
        lemma_exact_float_chain::<A, B, C>(a);
        if -exact_bound::<C>() <= a.value() <= exact_bound::<C>() {
            lemma_integer_is_exact::<C>(a.value());
        }
    }
}

} // verus!
