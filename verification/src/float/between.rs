//! The conversion of a number of one format to the other.
//!
//! To a format that holds every number of the source the conversion is exact
//! and cannot fail, and what was converted comes back unchanged.  To a format
//! with less range and precision it rounds to the nearest number, and fails
//! on a finite number beyond the finite numbers of the destination.

use crate::errors::{NoError, RangeError};
use crate::float::{
    greatest, infinity, is_finite, is_infinite, is_nan, lemma_significand, max_exponent,
    power_of_two, quiet_nan, scale, scaled_eq, scaled_exceeds, scaled_gt, significand,
    significand_and_scale, Float,
};
use crate::float::from_integer::{
    exact_bound, exact_float, lemma_integer_is_exact, magnitude, nearest_to_integer, ExactFloat,
};
use crate::float::rounding::{
    bit_length, last_place, lemma_bit_length, lemma_nearest_of_own, lemma_nearest_shift,
    lemma_nearest_value, lemma_round_half_even, lemma_units_exact, lemma_units_in_last_place,
    nearest, round_to_float, units_in_last_place,
};
use crate::float::to_integer::stands_for;
use crate::integer::Integer;
use crate::ValueFrom;
use vstd::arithmetic::power2::{
    lemma2_to64, lemma_pow2_adds, lemma_pow2_pos, lemma_pow2_strictly_increases, pow2,
};
use vstd::prelude::*;

verus! {

/// A finite `x` is further from zero than the greatest finite number of `B`.
pub open spec fn exceeds<A: Float, B: Float>(x: A) -> bool {
    scaled_gt(
        significand(x),
        scale(x),
        significand(greatest::<B>(false)),
        scale(greatest::<B>(false)),
    )
}

/// `x` in the format `B`: the number of `B` nearest to it.  An infinity stays
/// the infinity of its sign, and what is not a number stays so.
pub open spec fn converted<A: Float, B: Float>(x: A) -> B {
    if is_nan(x) {
        quiet_nan::<B>(x.is_negative())
    } else if is_infinite(x) {
        infinity::<B>(x.is_negative())
    } else {
        nearest::<B>(x.is_negative(), significand(x), scale(x))
    }
}

/// The conversion to a format that holds every number of `A`.
pub open spec fn widened<A: Float, B: Float>(src: A) -> Result<B, NoError> {
    Ok(converted::<A, B>(src))
}

/// The approximation in a format with less range: a finite number beyond the
/// finite numbers of `B` is refused.  Infinities, and what is not a number,
/// pass.
pub open spec fn approx_narrowed<A: Float, B: Float>(src: A) -> Result<B, RangeError> {
    if is_finite(src) && exceeds::<A, B>(src) {
        if src.is_negative() {
            Err(RangeError::Underflow)
        } else {
            Err(RangeError::Overflow)
        }
    } else {
        Ok(converted::<A, B>(src))
    }
}

/// Returns `x` in the format `B`: the number of `B` nearest to it.
pub fn convert_float<A: Float, B: Float>(x: A) -> (y: B)
    ensures
        y == converted::<A, B>(x),
{
    proof {
        A::lemma_format();
        B::lemma_format();
        lemma2_to64();
        lemma_pow2_pos(B::fraction_bits());
    }
    let (negative, exponent, fraction) = x.to_parts();
    if exponent == 2 * A::exponent_bias() + 1 {
        let marked = 2 * B::exponent_bias() + 1;
        if fraction != 0 {
            proof {
                lemma_pow2_strictly_increases(
                    (B::fraction_bits() - 1) as nat,
                    B::fraction_bits(),
                );
                lemma_pow2_strictly_increases((B::fraction_bits() - 1) as nat, 64);
            }
            B::of_parts(negative, marked, power_of_two(B::fraction_width() - 1) as u64)
        } else {
            B::of_parts(negative, marked, 0)
        }
    } else {
        let (n, s) = significand_and_scale(x);
        round_to_float::<B>(negative, n, s)
    }
}

/// Converts to a format that holds every number of `A`.
pub fn convert_float_widening<A: Float, B: Float>(src: A) -> (r: Result<B, NoError>)
    ensures
        r == widened::<A, B>(src),
{
    Ok(convert_float::<A, B>(src))
}

/// Converts to a format with less range, if the number is not beyond it.
pub fn convert_float_narrowing<A: Float, B: Float>(src: A) -> (r: Result<B, RangeError>)
    ensures
        r == approx_narrowed::<A, B>(src),
{
    proof {
        A::lemma_format();
        B::lemma_format();
        lemma2_to64();
        lemma_pow2_pos(B::fraction_bits());
        lemma_pow2_strictly_increases(B::fraction_bits(), 64);
    }
    let (negative, exponent, _) = src.to_parts();
    if exponent != 2 * A::exponent_bias() + 1 {
        let (n, s) = significand_and_scale(src);
        let limit = B::of_parts(
            false,
            2 * B::exponent_bias(),
            (power_of_two(B::fraction_width()) - 1) as u64,
        );
        let (m, t) = significand_and_scale(limit);
        if scaled_exceeds(n, s, m, t) {
            return if negative {
                Err(RangeError::Underflow)
            } else {
                Err(RangeError::Overflow)
            };
        }
    }
    Ok(convert_float::<A, B>(src))
}

/// The format `B` holds every number of `A`: it has at least the precision
/// and at least the range.
pub open spec fn holds_all<A: Float, B: Float>() -> bool {
    A::fraction_bits() <= B::fraction_bits() && A::bias() <= B::bias()
}

/// In a format that holds every number of `A`, nothing of a finite number of
/// `A` is rounded away: the nearest number of `B` has its sign and stands for
/// it exactly, with the significand shifted up to the last place of `B`.
proof fn lemma_widened_parts<A: Float, B: Float>(x: A)
    requires
        holds_all::<A, B>(),
        is_finite(x),
        significand(x) > 0,
    ensures
        ({
            let y = nearest::<B>(x.is_negative(), significand(x), scale(x));
            let place = last_place::<B>(bit_length(significand(x)) + scale(x));
            &&& is_finite(y)
            &&& y.is_negative() == x.is_negative()
            &&& place <= scale(x)
            &&& scale(y) == place
            &&& significand(y) == significand(x) * pow2((scale(x) - place) as nat)
        }),
{
    A::lemma_format();
    B::lemma_format();
    lemma_significand(x);
    let n = significand(x);
    let s = scale(x);
    let p = B::fraction_bits();
    let implied = pow2(p);
    let len = bit_length(n);
    lemma_bit_length(n);
    if len > A::fraction_bits() + 1 {
        if len - 1 > A::fraction_bits() + 1 {
            lemma_pow2_strictly_increases(A::fraction_bits() + 1, (len - 1) as nat);
        }
    }
    assert(len <= A::fraction_bits() + 1);
    let place = last_place::<B>(len + s);
    assert(place <= s);
    lemma_units_exact::<B>(n, s);
    let units = units_in_last_place::<B>(n, s);
    lemma_pow2_pos(p);
    vstd::arithmetic::div_mod::lemma_div_is_ordered(units as int, 2 * implied - 1, implied as int);
    vstd::arithmetic::div_mod::lemma_fundamental_div_mod_converse(
        2 * implied - 1,
        implied as int,
        1,
        implied - 1,
    );
    let exponent = place + p + B::bias() - 1 + units / implied;
    assert(exponent < max_exponent::<B>());
    assert(nearest::<B>(x.is_negative(), n, s) == B::from_parts(
        x.is_negative(),
        exponent as nat,
        units % implied,
    ));
    lemma_nearest_value::<B>(x.is_negative(), n, s);
}

/// To widen is exact: in a format that holds every number of `A`, a finite
/// number of `A` converts to a finite number with the same sign that stands
/// for the same value, and an infinity to the infinity of its sign.
pub proof fn lemma_widening_is_exact<A: Float, B: Float>(x: A)
    requires
        holds_all::<A, B>(),
    ensures
        is_finite(x) ==> is_finite(converted::<A, B>(x)) && scaled_eq(
            significand(converted::<A, B>(x)),
            scale(converted::<A, B>(x)),
            significand(x),
            scale(x),
        ),
        is_infinite(x) <==> is_infinite(converted::<A, B>(x)),
        is_nan(x) <==> is_nan(converted::<A, B>(x)),
        converted::<A, B>(x).is_negative() == x.is_negative(),
{
    A::lemma_format();
    B::lemma_format();
    lemma_pow2_pos(B::fraction_bits());
    lemma_pow2_pos((B::fraction_bits() - 1) as nat);
    lemma_pow2_strictly_increases((B::fraction_bits() - 1) as nat, B::fraction_bits());
    let y = converted::<A, B>(x);
    if is_finite(x) {
        if significand(x) > 0 {
            lemma_widened_parts::<A, B>(x);
            if scale(y) == scale(x) {
                lemma2_to64();
                assert(significand(x) * pow2(0) * pow2(0) == significand(x)) by (nonlinear_arith)
                    requires
                        pow2(0) == 1,
                ;
            }
        } else {
            lemma_significand(x);
            assert(y == B::from_parts(x.is_negative(), 0, 0));
            assert(significand(y) == 0);
            assert(scale(y) <= scale(x));
            assert(0 * pow2((scale(x) - scale(y)) as nat) == 0) by (nonlinear_arith);
            if scale(y) == scale(x) {
                assert(0 * pow2(0) == 0) by (nonlinear_arith);
            }
        }
    }
}

/// What is widened comes back: a number of `A`, converted to a format that
/// holds every number of `A` and back, is itself, unless it is not a number.
pub proof fn lemma_widening_round_trip<A: Float, B: Float>(x: A)
    requires
        holds_all::<A, B>(),
        !is_nan(x),
    ensures
        converted::<B, A>(converted::<A, B>(x)) == x,
{
    A::lemma_format();
    B::lemma_format();
    lemma_pow2_pos(A::fraction_bits());
    lemma_pow2_pos(B::fraction_bits());
    let y = converted::<A, B>(x);
    if is_finite(x) {
        lemma_significand(x);
        if significand(x) > 0 {
            lemma_widened_parts::<A, B>(x);
            let k = (scale(x) - scale(y)) as nat;
            lemma_nearest_shift::<A>(x.is_negative(), significand(x), scale(x), k);
            assert(scale(x) - k == scale(y));
            lemma_nearest_of_own(x);
        } else {
            assert(y == B::from_parts(x.is_negative(), 0, 0));
            assert(x == A::from_parts(x.is_negative(), x.exponent(), x.fraction()));
        }
    } else {
        assert(x == A::from_parts(x.is_negative(), x.exponent(), x.fraction()));
    }
}

/// Exact conversions compose through the formats: an integer that converts
/// exactly to a number of `A` converts exactly to a number of every format
/// that holds all of `A`, and to the same number as by way of `A`.
pub proof fn lemma_exact_float_widening_chain<S: Integer, A: Float, B: Float>(src: S)
    requires
        holds_all::<A, B>(),
    ensures
        exact_float::<S, A>(src) matches Ok(x) ==> exact_float::<S, B>(src) == Ok::<
            B,
            RangeError,
        >(converted::<A, B>(x)),
{
    A::lemma_format();
    B::lemma_format();
    let v = src.value();
    if A::fraction_bits() < B::fraction_bits() {
        lemma_pow2_strictly_increases(A::fraction_bits() + 1, B::fraction_bits() + 1);
    }
    if -exact_bound::<A>() <= v <= exact_bound::<A>() {
        let x = nearest_to_integer::<A>(v);
        let n = magnitude(v);
        lemma_integer_is_exact::<A>(v);
        if v == 0 {
            lemma_pow2_pos(A::fraction_bits());
            assert(x == A::from_parts(false, 0, 0));
            assert(significand(x) == 0);
        } else {
            let place = scale(x);
            let units = significand(x);
            lemma_pow2_pos(magnitude(place) as nat);
            assert(units > 0) by (nonlinear_arith)
                requires
                    n > 0,
                    pow2(magnitude(place) as nat) > 0,
                    if place >= 0 {
                        units * pow2(magnitude(place) as nat) == n
                    } else {
                        units == n * pow2(magnitude(place) as nat)
                    },
            ;
            if place >= 0 {
                lemma_nearest_shift::<B>(v < 0, units, place, place as nat);
            } else {
                lemma_nearest_shift::<B>(v < 0, n, 0, (-place) as nat);
            }
        }
    }
}

/// A value that does not exceed the greatest finite number of `B` has no more
/// bits before the binary point than that number has.
proof fn lemma_top_within<B: Float>(n: nat, s: int)
    requires
        n > 0,
        !scaled_gt(n, s, significand(greatest::<B>(false)), scale(greatest::<B>(false))),
    ensures
        significand(greatest::<B>(false)) == 2 * pow2(B::fraction_bits()) - 1,
        scale(greatest::<B>(false)) == B::bias() - B::fraction_bits(),
        bit_length(n) + s <= B::bias() + 1,
{
    B::lemma_format();
    let p = B::fraction_bits();
    let t = B::bias() - p;
    let len = bit_length(n);
    lemma_pow2_pos(p);
    lemma_pow2_adds(p, 1);
    lemma2_to64();
    lemma_bit_length(n);
    let low = pow2((len - 1) as nat);
    if s >= t {
        let up = (s - t) as nat;
        lemma_pow2_adds((len - 1) as nat, up);
        assert(low * pow2(up) <= n * pow2(up)) by (nonlinear_arith)
            requires
                low <= n,
        ;
        if len - 1 + up >= p + 1 {
            if len - 1 + up > p + 1 {
                lemma_pow2_strictly_increases(p + 1, (len - 1 + up) as nat);
            }
        }
    } else {
        let down = (t - s) as nat;
        lemma_pow2_pos(down);
        lemma_pow2_adds(p + 1, down);
        assert((2 * pow2(p) - 1) * pow2(down) < pow2(p + 1) * pow2(down)) by (nonlinear_arith)
            requires
                pow2(p + 1) == 2 * pow2(p),
                pow2(down) > 0,
        ;
        if len - 1 >= p + 1 + down {
            if len - 1 > p + 1 + down {
                lemma_pow2_strictly_increases(p + 1 + down, (len - 1) as nat);
            }
        }
    }
}

/// A value that does not exceed the greatest finite number of `B` rounds to a
/// finite number of `B`.
proof fn lemma_nearest_within_is_finite<B: Float>(negative: bool, n: nat, s: int)
    requires
        n > 0,
        !scaled_gt(n, s, significand(greatest::<B>(false)), scale(greatest::<B>(false))),
    ensures
        is_finite(nearest::<B>(negative, n, s)),
{
    B::lemma_format();
    lemma_top_within::<B>(n, s);
    lemma_units_in_last_place::<B>(n, s);
    let p = B::fraction_bits();
    let t = B::bias() - p;
    let implied = pow2(p);
    let most = 2 * implied - 1;
    let place = last_place::<B>(bit_length(n) + s);
    let units = units_in_last_place::<B>(n, s);
    lemma_pow2_pos(p);
    assert(place <= t);
    if place == t {
        // In units of the last place the value is no more than the greatest
        // significand, and rounding does not take it beyond.
        if s < place {
            let d = pow2((place - s) as nat);
            lemma_pow2_pos((place - s) as nat);
            lemma_round_half_even(n, d);
            vstd::arithmetic::div_mod::lemma_fundamental_div_mod(n as int, d as int);
            vstd::arithmetic::div_mod::lemma_mod_bound(n as int, d as int);
            assert(n / d <= most && (n / d == most ==> n % d == 0)) by (nonlinear_arith)
                requires
                    n == d * (n / d) + n % d,
                    0 <= n % d,
                    n <= most * d,
                    d > 0,
            ;
        }
        assert(units <= most);
    }
    vstd::arithmetic::div_mod::lemma_div_is_ordered(
        units as int,
        2 * implied as int,
        implied as int,
    );
    vstd::arithmetic::div_mod::lemma_div_multiples_vanish(2, implied as int);
    if units <= most {
        vstd::arithmetic::div_mod::lemma_div_is_ordered(units as int, most, implied as int);
        vstd::arithmetic::div_mod::lemma_fundamental_div_mod_converse(
            most,
            implied as int,
            1,
            implied - 1,
        );
    }
    vstd::arithmetic::div_mod::lemma_mod_bound(units as int, implied as int);
    let exponent = place + p + B::bias() - 1 + units / implied;
    assert(exponent < max_exponent::<B>());
    assert(nearest::<B>(negative, n, s) == B::from_parts(
        negative,
        exponent as nat,
        units % implied,
    ));
}

/// The approximation does not saturate in silence: a finite number that
/// narrows without error narrows to a finite number, and never to an
/// infinity.
pub proof fn lemma_narrowing_stays_finite<A: Float, B: Float>(src: A)
    requires
        is_finite(src),
    ensures
        approx_narrowed::<A, B>(src) matches Ok(y) ==> is_finite(y),
        approx_narrowed::<A, B>(src) is Err <==> exceeds::<A, B>(src),
{
    A::lemma_format();
    B::lemma_format();
    lemma_pow2_pos(B::fraction_bits());
    if !exceeds::<A, B>(src) {
        if significand(src) > 0 {
            lemma_nearest_within_is_finite::<B>(src.is_negative(), significand(src), scale(src));
        }
    }
}

/// The exact conversion from the format `Src` into the format is the
/// widening conversion, and the format holds every number of `Src`.
pub trait Widening<Src: Float>: Float + ValueFrom<Src> {
    /// `value_from` follows `widened`.
    proof fn lemma_value_from_widens(src: Src)
        ensures
            holds_all::<Src, Self>(),
            Self::value_from_spec(src) matches Ok(y) && y == converted::<Src, Self>(src),
    ;
}

/// Exact conversions compose by way of a format, whatever the types: where
/// the integer `a` converts to the number `b` and `b` widens to `c`, the
/// direct conversion of `a` succeeds too and gives the same `c`, and both
/// numbers stand for the integer that `a` stands for.
pub proof fn lemma_value_from_chain_through_float<A, B, C>(a: A) where
    A: Integer,
    B: ExactFloat<A>,
    C: Widening<B> + ExactFloat<A>,

    ensures
        match <B as ValueFrom<A>>::value_from_spec(a) {
            Ok(b) => match <C as ValueFrom<B>>::value_from_spec(b) {
                Ok(c) => {
                    &&& <C as ValueFrom<A>>::value_from_spec(a) matches Ok(direct)
                    &&& direct == c
                    &&& stands_for(b, a.value())
                    &&& stands_for(c, a.value())
                },
                Err(_) => true,
            },
            Err(_) => true,
        },
{
    A::lemma_bounds();
    B::lemma_format();
    C::lemma_format();
    <B as ExactFloat<A>>::lemma_value_from_is_exact(a);
    <C as ExactFloat<A>>::lemma_value_from_is_exact(a);
    if let Ok(b) = <B as ValueFrom<A>>::value_from_spec(a) {
        <C as Widening<B>>::lemma_value_from_widens(b);
        lemma_exact_float_widening_chain::<A, B, C>(a);
        lemma_integer_is_exact::<B>(a.value());
        if B::fraction_bits() < C::fraction_bits() {
            lemma_pow2_strictly_increases(B::fraction_bits() + 1, C::fraction_bits() + 1);
        }
        lemma_integer_is_exact::<C>(a.value());
    }
}

} // verus!
