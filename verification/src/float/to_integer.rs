//! The approximation of a floating point number by an integer.
//!
//! A floating point number is unlikely to be an integer, so there is no exact
//! conversion.  The approximation drops the fractional part, and fails where
//! the number lies beyond the bounds of the integer type; what is not a
//! number converts to no integer.

use crate::errors::FloatError;
use crate::float::{
    is_finite, is_infinite, is_nan, lemma_significand, power_of_two, scale, signed_significand,
    significand, Float,
};
use crate::integer::Integer;
use vstd::arithmetic::power2::{lemma2_to64, lemma_pow2_pos, lemma_pow2_strictly_increases, pow2};
use vstd::prelude::*;

verus! {

/// `x < bound`, for an `x` that is a number.
pub open spec fn is_below<F: Float>(x: F, bound: int) -> bool {
    if is_infinite(x) {
        x.is_negative()
    } else if scale(x) >= 0 {
        signed_significand(x) * pow2(scale(x) as nat) < bound
    } else {
        signed_significand(x) < bound * pow2((-scale(x)) as nat)
    }
}

/// `x > bound`, for an `x` that is a number.
pub open spec fn is_above<F: Float>(x: F, bound: int) -> bool {
    if is_infinite(x) {
        !x.is_negative()
    } else if scale(x) >= 0 {
        signed_significand(x) * pow2(scale(x) as nat) > bound
    } else {
        signed_significand(x) > bound * pow2((-scale(x)) as nat)
    }
}

/// A finite `x` with its fractional part dropped: rounded towards zero.
pub open spec fn truncated<F: Float>(x: F) -> int {
    if scale(x) >= 0 {
        signed_significand(x) * pow2(scale(x) as nat)
    } else if x.is_negative() {
        -((significand(x) / pow2((-scale(x)) as nat)) as int)
    } else {
        (significand(x) / pow2((-scale(x)) as nat)) as int
    }
}

/// The approximation of a floating point number by an integer.
///
/// What is not a number does not convert.  The approximation step is to drop
/// the fractional part.  The number must lie within the bounds of `D`, from
/// its least to its greatest value, and it is compared as it stands, before
/// the fractional part is dropped: -0.5 is below zero, and 255.5 is above
/// 255.  The bounds are the integers themselves, not what the format makes of
/// them: single precision cannot hold the greatest `i32`, and two to the
/// power of 31, the nearest it does hold, overflows.  So a number that
/// converts is never brought into range by saturation.
pub open spec fn approx_integer<F: Float, D: Integer>(src: F) -> Result<D, FloatError> {
    if is_nan(src) {
        Err(FloatError::NotANumber)
    } else if is_below(src, D::min_value()) {
        Err(FloatError::Underflow)
    } else if is_above(src, D::max_value()) {
        Err(FloatError::Overflow)
    } else {
        Ok(D::from_int(truncated(src)))
    }
}

/// A quotient and a remainder compare with a bound as the dividend does with
/// the bound scaled.
proof fn lemma_compare_scaled(sig: int, d: int, limit: int)
    requires
        0 <= sig,
        0 < d,
    ensures
        sig > limit * d <==> sig / d > limit || (sig / d == limit && sig % d > 0),
        sig < limit * d <==> sig / d < limit,
{
    let q = sig / d;
    let r = sig % d;
    vstd::arithmetic::div_mod::lemma_fundamental_div_mod(sig, d);
    vstd::arithmetic::div_mod::lemma_mod_bound(sig, d);
    assert(sig == d * q + r);
    assert(q > limit ==> d * q + r > limit * d) by (nonlinear_arith)
        requires
            0 < d,
            0 <= r,
    ;
    assert(q < limit ==> d * q + r < limit * d) by (nonlinear_arith)
        requires
            0 < d,
            r < d,
    ;
    assert(q == limit ==> d * q == limit * d) by (nonlinear_arith);
}

/// Converts a floating point number to an integer by dropping its fractional
/// part, if it lies within the bounds of `D`.
pub fn convert_float_to_integer<F: Float, D: Integer>(src: F) -> (r: Result<D, FloatError>)
    ensures
        r == approx_integer::<F, D>(src),
{
    proof {
        F::lemma_format();
        D::lemma_bounds();
        lemma2_to64();
    }
    let (negative, exponent, fraction) = src.to_parts();
    let p = F::fraction_width();
    let bias = F::exponent_bias();
    if exponent == 2 * bias + 1 {
        return if fraction != 0 {
            Err(FloatError::NotANumber)
        } else if negative {
            Err(FloatError::Underflow)
        } else {
            Err(FloatError::Overflow)
        };
    }
    proof {
        lemma_significand(src);
    }
    let implied = power_of_two(p);
    let sig: u128 = if exponent == 0 {
        fraction as u128
    } else {
        implied + fraction as u128
    };
    let e: u32 = if exponent == 0 {
        1
    } else {
        exponent
    };
    let min = D::saturated_min().to_wide();
    let max = D::saturated_max().to_wide();
    assert(sig == significand(src));
    assert(e - bias - p == scale(src));
    let ghost m = signed_significand(src);
    let whole: u128;
    let inexact: bool;
    if e >= bias + p {
        let up = e - bias - p;
        let ghost scaled = pow2(up as nat);
        proof {
            lemma_pow2_pos(up as nat);
            assert(sig >= 1);
            assert(sig * scaled >= scaled) by (nonlinear_arith)
                requires
                    sig >= 1,
                    scaled > 0,
            ;
            assert(m * scaled == if negative {
                -(sig * scaled)
            } else {
                sig * scaled
            }) by (nonlinear_arith)
                requires
                    m == if negative {
                        -(sig as int)
                    } else {
                        sig as int
                    },
            ;
        }
        if up > 64 {
            proof {
                lemma_pow2_strictly_increases(64, up as nat);
            }
            return if negative {
                Err(FloatError::Underflow)
            } else {
                Err(FloatError::Overflow)
            };
        }
        let factor = power_of_two(up);
        proof {
            if up < 64 {
                lemma_pow2_strictly_increases(up as nat, 64);
            }
            assert(sig * factor <= 0x20_0000_0000_0000 * 0x1_0000_0000_0000_0000)
                by (nonlinear_arith)
                requires
                    sig <= 0x20_0000_0000_0000,
                    factor <= 0x1_0000_0000_0000_0000,
            ;
        }
        whole = sig * factor;
        inexact = false;
        assert(truncated(src) == if negative {
            -(whole as int)
        } else {
            whole as int
        });
    } else {
        let down = bias + p - e;
        let ghost d = pow2(down as nat);
        proof {
            lemma_pow2_pos(down as nat);
            lemma_compare_scaled(sig as int, d as int, -min);
            lemma_compare_scaled(sig as int, d as int, max as int);
            assert(min * d == -((-min) * d)) by (nonlinear_arith);
            assert(min * d <= 0) by (nonlinear_arith)
                requires
                    min <= 0,
                    d > 0,
            ;
            assert(max * d > 0) by (nonlinear_arith)
                requires
                    max > 0,
                    d > 0,
            ;
        }
        if down > p {
            proof {
                if down > p + 1 {
                    lemma_pow2_strictly_increases((p + 1) as nat, down as nat);
                }
                vstd::arithmetic::div_mod::lemma_small_mod(sig as nat, d);
                vstd::arithmetic::div_mod::lemma_basic_div(sig as int, d as int);
            }
            whole = 0;
            inexact = sig != 0;
        } else {
            let divisor = power_of_two(down);
            whole = sig / divisor;
            inexact = sig % divisor != 0;
        }
        assert(whole == sig as int / d as int);
        assert(inexact == (sig as int % d as int > 0));
        assert(truncated(src) == if negative {
            -(whole as int)
        } else {
            whole as int
        });
    }
    if negative {
        let limit = (-min) as u128;
        if whole > limit || (whole == limit && inexact) {
            Err(FloatError::Underflow)
        } else {
            Ok(D::from_wide(-(whole as i128)))
        }
    } else {
        let limit = max as u128;
        if whole > limit || (whole == limit && inexact) {
            Err(FloatError::Overflow)
        } else {
            Ok(D::from_wide(whole as i128))
        }
    }
}

/// What is not a number converts to no integer: the conversion fails with
/// `NotANumber`, and with no other error.
pub proof fn lemma_nan_is_not_a_number<F: Float, D: Integer>(src: F)
    ensures
        is_nan(src) <==> approx_integer::<F, D>(src) == Err::<D, FloatError>(
            FloatError::NotANumber,
        ),
{
}

/// A number converts exactly when it lies within the bounds of `D`, and then
/// to itself with the fractional part dropped, which is less than one away
/// from it.  It underflows exactly when it lies below the least value of `D`,
/// as negative infinity does, and overflows exactly when it lies above the
/// greatest, as positive infinity does.
pub proof fn lemma_approx_integer_truncates<F: Float, D: Integer>(src: F)
    requires
        !is_nan(src),
    ensures
        approx_integer::<F, D>(src) is Ok <==> !is_below(src, D::min_value()) && !is_above(
            src,
            D::max_value(),
        ),
        approx_integer::<F, D>(src) matches Ok(dst) ==> {
            &&& is_finite(src)
            &&& dst.value() == truncated(src)
            &&& D::min_value() <= truncated(src) <= D::max_value()
            &&& is_above(src, dst.value() - 1)
            &&& is_below(src, dst.value() + 1)
        },
        approx_integer::<F, D>(src) == Err::<D, FloatError>(FloatError::Underflow) <==> is_below(
            src,
            D::min_value(),
        ),
        approx_integer::<F, D>(src) == Err::<D, FloatError>(FloatError::Overflow) <==> is_above(
            src,
            D::max_value(),
        ),
        is_infinite(src) ==> approx_integer::<F, D>(src) == Err::<D, FloatError>(
            if src.is_negative() {
                FloatError::Underflow
            } else {
                FloatError::Overflow
            },
        ),
        is_finite(src) && truncated(src) < D::min_value() ==> is_below(src, D::min_value()),
        is_finite(src) && truncated(src) > D::max_value() ==> is_above(src, D::max_value()),
        is_finite(src) && D::min_value() < truncated(src) < D::max_value() ==> approx_integer::<
            F,
            D,
        >(src) is Ok,
{
    F::lemma_format();
    D::lemma_bounds();
    let min = D::min_value();
    let max = D::max_value();
    if is_finite(src) {
        lemma_truncated_is_within_one(src, min);
        lemma_truncated_is_within_one(src, max);
        lemma_truncated_is_within_one(src, truncated(src) - 1);
        lemma_truncated_is_within_one(src, truncated(src) + 1);
    }
}

/// A finite number compares with an integer bound as its whole part does,
/// but where the whole part is the bound: then the fractional part decides,
/// by the sign of the number.
pub proof fn lemma_truncated_is_within_one<F: Float>(src: F, bound: int)
    requires
        is_finite(src),
    ensures
        truncated(src) < bound ==> is_below(src, bound),
        truncated(src) > bound ==> is_above(src, bound),
        is_below(src, bound) ==> truncated(src) <= bound,
        is_above(src, bound) ==> truncated(src) >= bound,
        !(is_below(src, bound) && is_above(src, bound)),
        bound < 0 ==> (is_above(src, bound) <==> truncated(src) > bound),
        bound > 0 ==> (is_below(src, bound) <==> truncated(src) < bound),
{
    F::lemma_format();
    lemma_significand(src);
    let sig = significand(src) as int;
    let m = signed_significand(src);
    if scale(src) < 0 {
        let d = pow2((-scale(src)) as nat) as int;
        lemma_pow2_pos((-scale(src)) as nat);
        lemma_compare_scaled(sig, d, bound);
        lemma_compare_scaled(sig, d, -bound);
        assert(bound * d == -((-bound) * d)) by (nonlinear_arith);
        assert(bound > 0 ==> bound * d > 0) by (nonlinear_arith)
            requires
                d > 0,
        ;
        assert(bound < 0 ==> bound * d < 0) by (nonlinear_arith)
            requires
                d > 0,
        ;
        assert(bound == 0 ==> bound * d == 0) by (nonlinear_arith);
    } else {
        let scaled = pow2(scale(src) as nat) as int;
        lemma_pow2_pos(scale(src) as nat);
        assert(m * scaled == if src.is_negative() {
            -(sig * scaled)
        } else {
            sig * scaled
        }) by (nonlinear_arith)
            requires
                m == if src.is_negative() {
                    -sig
                } else {
                    sig
                },
        ;
    }
}

/// The finite number `x` stands for the integer `v`.
pub open spec fn stands_for<F: Float>(x: F, v: int) -> bool {
    &&& is_finite(x)
    &&& if scale(x) >= 0 {
        signed_significand(x) * pow2(scale(x) as nat) == v
    } else {
        signed_significand(x) == v * pow2((-scale(x)) as nat)
    }
}

/// A number that stands for an integer has no fractional part to drop, and
/// compares with every bound as that integer does.
pub proof fn lemma_stands_for<F: Float>(x: F, v: int, bound: int)
    requires
        stands_for(x, v),
    ensures
        truncated(x) == v,
        is_below(x, bound) <==> v < bound,
        is_above(x, bound) <==> v > bound,
{
    F::lemma_format();
    let sig = significand(x) as int;
    if scale(x) < 0 {
        let d = pow2((-scale(x)) as nat) as int;
        lemma_pow2_pos((-scale(x)) as nat);
        assert(v * d < bound * d <==> v < bound) by (nonlinear_arith)
            requires
                d > 0,
        ;
        assert(v * d > bound * d <==> v > bound) by (nonlinear_arith)
            requires
                d > 0,
        ;
        if x.is_negative() {
            assert((-v) * d == -(v * d)) by (nonlinear_arith);
            vstd::arithmetic::div_mod::lemma_div_multiples_vanish(-v, d);
            assert(d * (-v) == (-v) * d) by (nonlinear_arith);
        } else {
            vstd::arithmetic::div_mod::lemma_div_multiples_vanish(v, d);
            assert(d * v == v * d) by (nonlinear_arith);
        }
    }
}

} // verus!
