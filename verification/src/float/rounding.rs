//! The number of a format nearest to a given value.
//!
//! The value is given as a natural number `n` scaled by a power of two,
//! `n * 2^s`, with its sign apart.  `nearest` says which number of the format
//! stands for it or, where none does, lies nearest to it; `round_to_float`
//! computes that number.  The lemmas say what the nearest number stands for,
//! when nothing is rounded away, and that it depends on the value alone and
//! not on how the value is written.

use crate::float::{
    infinity, is_finite, lemma_significand, max_exponent, power_of_two, scale, scaled_eq,
    significand, Float,
};
use vstd::arithmetic::power2::{
    lemma2_to64, lemma_pow2_adds, lemma_pow2_pos, lemma_pow2_strictly_increases, pow2,
};
use vstd::prelude::*;

verus! {

/// `n / d` rounded to the nearest integer, and to the even one of the two
/// where it lies halfway between them.
pub open spec fn round_half_even(n: nat, d: nat) -> nat {
    let q = n / d;
    let r = n % d;
    if 2 * r < d || (2 * r == d && q % 2 == 0) {
        q
    } else {
        q + 1
    }
}

/// The number of bits that it takes to write `n`: the least `k` with
/// `n < 2^k`.
pub open spec fn bit_length(n: nat) -> nat
    decreases n,
{
    if n == 0 {
        0
    } else {
        1 + bit_length(n / 2)
    }
}

/// The power of two that the last place of the fraction stands for, in the
/// number of `F` nearest to a number of `top` bits before the binary point:
/// that of a normal number, or the one that all subnormal numbers share.
pub open spec fn last_place<F: Float>(top: int) -> int {
    if top - 1 >= 1 - F::bias() {
        top - 1 - F::fraction_bits()
    } else {
        1 - F::bias() - F::fraction_bits()
    }
}

/// `n * 2^s` in units of the last place of the number of `F` nearest to it,
/// rounded to the nearest unit, and to the even one of two equally near.
pub open spec fn units_in_last_place<F: Float>(n: nat, s: int) -> nat {
    let place = last_place::<F>(bit_length(n) + s);
    if s >= place {
        n * pow2((s - place) as nat)
    } else {
        round_half_even(n, pow2((place - s) as nat))
    }
}

/// The number of `F` nearest to `n * 2^s`, with the given sign; where two are
/// equally near, the one with the even fraction.  It is zero or subnormal
/// where `n * 2^s` is too small for a normal number, and infinite where it is
/// too large for any.
///
/// The number is found in units of its last place.  The exponent and the
/// fraction are then read off together: units that fill one place more than
/// the fraction has carry into the exponent.
pub open spec fn nearest<F: Float>(negative: bool, n: nat, s: int) -> F {
    if n == 0 {
        F::from_parts(negative, 0, 0)
    } else {
        let place = last_place::<F>(bit_length(n) + s);
        let units = units_in_last_place::<F>(n, s);
        let first = place + F::fraction_bits() + F::bias() - 1;
        let exponent = first + units / pow2(F::fraction_bits());
        if exponent >= max_exponent::<F>() {
            infinity::<F>(negative)
        } else {
            F::from_parts(negative, exponent as nat, units % pow2(F::fraction_bits()))
        }
    }
}

/// A number of `k` bits lies from `2^(k-1)` up to, but not including, `2^k`.
pub proof fn lemma_bit_length(n: nat)
    ensures
        n < pow2(bit_length(n)),
        n > 0 ==> bit_length(n) > 0 && pow2((bit_length(n) - 1) as nat) <= n,
    decreases n,
{
    if n == 0 {
        lemma_pow2_pos(0);
    } else {
        lemma_bit_length(n / 2);
        let k = bit_length(n / 2);
        lemma_pow2_adds(k, 1);
        lemma2_to64();
        if n / 2 > 0 {
            lemma_pow2_adds((k - 1) as nat, 1);
        }
    }
}

/// The bit length is the only `k` with `2^(k-1) <= n < 2^k`.
pub proof fn lemma_bit_length_unique(n: nat, k: nat)
    requires
        k > 0,
        pow2((k - 1) as nat) <= n < pow2(k),
    ensures
        bit_length(n) == k,
{
    lemma_bit_length(n);
    lemma_pow2_pos((k - 1) as nat);
    let len = bit_length(n);
    if len < k {
        if len < k - 1 {
            lemma_pow2_strictly_increases(len, (k - 1) as nat);
        }
    } else if len > k {
        if k < len - 1 {
            lemma_pow2_strictly_increases(k, (len - 1) as nat);
        }
    }
}

/// Returns the number of bits that it takes to write `n`.
pub fn count_bits(n: u128) -> (k: u32)
    ensures
        k == bit_length(n as nat),
        k <= 128,
{
    let mut rest = n;
    let mut k: u32 = 0;
    proof {
        lemma2_to64();
    }
    while rest != 0
        invariant
            k <= 128,
            rest as nat * pow2(k as nat) <= n,
            bit_length(n as nat) == k + bit_length(rest as nat),
        decreases rest,
    {
        proof {
            lemma_pow2_adds(k as nat, 1);
            lemma2_to64();
            assert((rest / 2) * (pow2(k as nat) * 2) <= rest * pow2(k as nat)) by (nonlinear_arith)
                requires
                    (rest / 2) * 2 <= rest,
            ;
            if k == 128 {
                lemma_pow2_strictly_increases(64, 128);
                lemma_pow2_adds(64, 64);
                assert(pow2(64) * pow2(64) > u128::MAX) by (nonlinear_arith)
                    requires
                        pow2(64) == 0x1_0000_0000_0000_0000,
                ;
                assert(rest * pow2(128) >= pow2(128)) by (nonlinear_arith)
                    requires
                        rest >= 1,
                ;
            }
        }
        rest = rest / 2;
        k = k + 1;
    }
    proof {
        lemma_pow2_pos(0);
    }
    k
}

/// A quotient rounded to the nearest integer is no further from the exact
/// quotient than half a unit, and lies between the quotient rounded down and
/// rounded up.
pub proof fn lemma_round_half_even(n: nat, d: nat)
    requires
        d > 0,
    ensures
        n / d <= round_half_even(n, d) <= n / d + 1,
        2 * (round_half_even(n, d) * d - n) <= d,
        2 * (n - round_half_even(n, d) * d) <= d,
        n % d == 0 ==> round_half_even(n, d) == n / d,
        2 * (n % d) == d ==> round_half_even(n, d) % 2 == 0,
{
    let q = n / d;
    let r = n % d;
    vstd::arithmetic::div_mod::lemma_fundamental_div_mod(n as int, d as int);
    vstd::arithmetic::div_mod::lemma_mod_bound(n as int, d as int);
    assert((q + 1) * d == q * d + d) by (nonlinear_arith);
    assert(q * d == d * q) by (nonlinear_arith);
}

/// The units of the last place fill at most one place more than the fraction
/// has, and where nothing is rounded away the number is shifted up by no more
/// than the fraction has bits.
pub(crate) proof fn lemma_units_in_last_place<F: Float>(n: nat, s: int)
    requires
        n > 0,
    ensures
        units_in_last_place::<F>(n, s) <= 2 * pow2(F::fraction_bits()),
        s - last_place::<F>(bit_length(n) + s) <= F::fraction_bits() + 1 - bit_length(n),
        bit_length(n) >= 1,
{
    F::lemma_format();
    lemma_bit_length(n);
    let p = F::fraction_bits();
    let len = bit_length(n);
    let place = last_place::<F>(len + s);
    lemma_pow2_adds(p, 1);
    lemma2_to64();
    if s >= place {
        let up = (s - place) as nat;
        lemma_pow2_pos(up);
        lemma_pow2_adds(len, up);
        if len + up < p + 1 {
            lemma_pow2_strictly_increases(len + up, p + 1);
        }
        assert(n * pow2(up) < pow2(len) * pow2(up)) by (nonlinear_arith)
            requires
                n < pow2(len),
                pow2(up) > 0,
        ;
    } else {
        let down = (place - s) as nat;
        let d = pow2(down);
        lemma_pow2_pos(down);
        lemma_round_half_even(n, d);
        vstd::arithmetic::div_mod::lemma_fundamental_div_mod(n as int, d as int);
        vstd::arithmetic::div_mod::lemma_mod_bound(n as int, d as int);
        if len >= down {
            lemma_pow2_adds((len - down) as nat, down);
            assert(n / d < pow2((len - down) as nat)) by (nonlinear_arith)
                requires
                    d * (n / d) <= n,
                    n < pow2((len - down) as nat) * d,
                    d > 0,
            ;
            if len - down < p + 1 {
                lemma_pow2_strictly_increases((len - down) as nat, p + 1);
            }
        } else {
            lemma_pow2_strictly_increases(len, down);
            vstd::arithmetic::div_mod::lemma_basic_div(n as int, d as int);
            lemma_pow2_pos(p);
        }
    }
}

/// Returns `n / 2^down` rounded to the nearest integer, and to the even one of
/// two equally near.
pub fn divide_rounding(n: u64, down: u64) -> (r: u64)
    ensures
        r == round_half_even(n as nat, pow2(down as nat)),
{
    proof {
        lemma2_to64();
    }
    if down > 64 {
        proof {
            let d = pow2(down as nat);
            lemma_pow2_adds(64, 1);
            if down > 65 {
                lemma_pow2_strictly_increases(65, down as nat);
            }
            vstd::arithmetic::div_mod::lemma_small_mod(n as nat, d);
            vstd::arithmetic::div_mod::lemma_basic_div(n as int, d as int);
        }
        return 0;
    }
    let d = power_of_two(down as u32);
    proof {
        if down < 64 {
            lemma_pow2_strictly_increases(down as nat, 64);
        }
        lemma_pow2_pos(down as nat);
        lemma_round_half_even(n as nat, d as nat);
        if down > 0 {
            lemma_pow2_strictly_increases(0, down as nat);
            vstd::arithmetic::div_mod::lemma_div_is_ordered_by_denominator(n as int, 2, d as int);
        } else {
            vstd::arithmetic::div_mod::lemma_small_mod(0, 1);
        }
    }
    let q = n as u128 / d;
    let r = n as u128 % d;
    if 2 * r < d || (2 * r == d && q % 2 == 0) {
        q as u64
    } else {
        (q + 1) as u64
    }
}

/// Returns the number of `F` nearest to `n * 2^s`, with the given sign.
pub fn round_to_float<F: Float>(negative: bool, n: u64, s: i32) -> (x: F)
    ensures
        x == nearest::<F>(negative, n as nat, s as int),
{
    proof {
        F::lemma_format();
        lemma2_to64();
        lemma_pow2_pos(F::fraction_bits());
        lemma_pow2_strictly_increases(F::fraction_bits(), 64);
    }
    if n == 0 {
        return F::of_parts(negative, 0, 0);
    }
    let p = F::fraction_width() as i64;
    let bias = F::exponent_bias() as i64;
    let len = count_bits(n as u128) as i64;
    let top = len + s as i64;
    let place = if top - 1 >= 1 - bias {
        top - 1 - p
    } else {
        1 - bias - p
    };
    proof {
        lemma_units_in_last_place::<F>(n as nat, s as int);
    }
    let implied = power_of_two(p as u32);
    let units: u128 = if s as i64 >= place {
        n as u128 * power_of_two((s as i64 - place) as u32)
    } else {
        divide_rounding(n, (place - s as i64) as u64) as u128
    };
    assert(units == units_in_last_place::<F>(n as nat, s as int));
    proof {
        vstd::arithmetic::div_mod::lemma_div_is_ordered(
            units as int,
            2 * implied as int,
            implied as int,
        );
        vstd::arithmetic::div_mod::lemma_div_multiples_vanish(2, implied as int);
    }
    let first = place + p + bias - 1;
    let exponent = first + (units / implied) as i64;
    if exponent >= 2 * bias + 1 {
        F::of_parts(negative, (2 * bias + 1) as u32, 0)
    } else {
        F::of_parts(negative, exponent as u32, (units % implied) as u64)
    }
}

/// The units of the last place are the nearest to the value: where something
/// is rounded away, they differ from `n * 2^s` by no more than half a unit,
/// and by half a unit only where they are even.
pub proof fn lemma_units_are_nearest<F: Float>(n: nat, s: int)
    requires
        n > 0,
        s < last_place::<F>(bit_length(n) + s),
    ensures
        ({
            let d = pow2((last_place::<F>(bit_length(n) + s) - s) as nat);
            let units = units_in_last_place::<F>(n, s);
            &&& 2 * (units * d - n) <= d
            &&& 2 * (n - units * d) <= d
            &&& (2 * (units * d - n) == d || 2 * (n - units * d) == d) ==> units % 2 == 0
        }),
{
    let d = pow2((last_place::<F>(bit_length(n) + s) - s) as nat);
    let q = n / d;
    let r = n % d;
    lemma_pow2_pos((last_place::<F>(bit_length(n) + s) - s) as nat);
    lemma_round_half_even(n, d);
    vstd::arithmetic::div_mod::lemma_fundamental_div_mod(n as int, d as int);
    vstd::arithmetic::div_mod::lemma_mod_bound(n as int, d as int);
    assert((q + 1) * d == q * d + d) by (nonlinear_arith);
    assert(q * d == d * q) by (nonlinear_arith);
}

/// In the range of the normal numbers, the units of the last place fill the
/// place of the implied one.
proof fn lemma_units_of_normal<F: Float>(n: nat, s: int)
    requires
        n > 0,
        bit_length(n) + s - 1 >= 1 - F::bias(),
    ensures
        units_in_last_place::<F>(n, s) >= pow2(F::fraction_bits()),
{
    F::lemma_format();
    lemma_bit_length(n);
    let p = F::fraction_bits();
    let len = bit_length(n);
    let place = last_place::<F>(len + s);
    let low = pow2((len - 1) as nat);
    if s >= place {
        let up = (s - place) as nat;
        lemma_pow2_adds((len - 1) as nat, up);
        assert(n * pow2(up) >= low * pow2(up)) by (nonlinear_arith)
            requires
                n >= low,
        ;
    } else {
        let down = (place - s) as nat;
        let d = pow2(down);
        lemma_pow2_pos(down);
        lemma_pow2_adds(p, down);
        lemma_round_half_even(n, d);
        vstd::arithmetic::div_mod::lemma_div_is_ordered(low as int, n as int, d as int);
        vstd::arithmetic::div_mod::lemma_div_multiples_vanish(pow2(p) as int, d as int);
        assert(pow2(p) * d == d * pow2(p)) by (nonlinear_arith);
    }
}

/// The number that `nearest` gives, where it is finite, has the sign it was
/// given and stands for the units of its last place: either as they are, or,
/// where rounding has carried them up to the next power of two, as half as
/// many units of the next place.
pub proof fn lemma_nearest_value<F: Float>(negative: bool, n: nat, s: int)
    requires
        n > 0,
        is_finite(nearest::<F>(negative, n, s)),
    ensures
        ({
            let y = nearest::<F>(negative, n, s);
            let place = last_place::<F>(bit_length(n) + s);
            let units = units_in_last_place::<F>(n, s);
            &&& y.is_negative() == negative
            &&& if units < 2 * pow2(F::fraction_bits()) {
                significand(y) == units && scale(y) == place
            } else {
                significand(y) == pow2(F::fraction_bits()) && scale(y) == place + 1
            }
        }),
{
    F::lemma_format();
    lemma_units_in_last_place::<F>(n, s);
    let p = F::fraction_bits();
    let implied = pow2(p);
    let place = last_place::<F>(bit_length(n) + s);
    let units = units_in_last_place::<F>(n, s);
    let first = place + p + F::bias() - 1;
    lemma_pow2_pos(p);
    if bit_length(n) + s - 1 >= 1 - F::bias() {
        lemma_units_of_normal::<F>(n, s);
    }
    if units < implied {
        vstd::arithmetic::div_mod::lemma_basic_div(units as int, implied as int);
        vstd::arithmetic::div_mod::lemma_small_mod(units, implied);
    } else if units < 2 * implied {
        vstd::arithmetic::div_mod::lemma_fundamental_div_mod_converse(
            units as int,
            implied as int,
            1,
            units - implied,
        );
    } else {
        vstd::arithmetic::div_mod::lemma_fundamental_div_mod_converse(
            units as int,
            implied as int,
            2,
            0,
        );
    }
    let exponent = first + units / implied;
    assert(nearest::<F>(negative, n, s) == F::from_parts(
        negative,
        exponent as nat,
        units % implied,
    ));
}

/// Where nothing is rounded away, the units of the last place stand for
/// `n * 2^s` exactly, and do not carry.
pub proof fn lemma_units_exact<F: Float>(n: nat, s: int)
    requires
        n > 0,
        s >= last_place::<F>(bit_length(n) + s) || n % pow2(
            (last_place::<F>(bit_length(n) + s) - s) as nat,
        ) == 0,
    ensures
        scaled_eq(units_in_last_place::<F>(n, s), last_place::<F>(bit_length(n) + s), n, s),
        units_in_last_place::<F>(n, s) < 2 * pow2(F::fraction_bits()),
{
    F::lemma_format();
    lemma_bit_length(n);
    lemma_units_in_last_place::<F>(n, s);
    let p = F::fraction_bits();
    let len = bit_length(n);
    let place = last_place::<F>(len + s);
    lemma_pow2_adds(p, 1);
    lemma2_to64();
    if s >= place {
        let up = (s - place) as nat;
        lemma_pow2_pos(up);
        lemma_pow2_adds(len, up);
        if len + up < p + 1 {
            lemma_pow2_strictly_increases(len + up, p + 1);
        }
        assert(n * pow2(up) < pow2(len) * pow2(up)) by (nonlinear_arith)
            requires
                n < pow2(len),
                pow2(up) > 0,
        ;
        if s == place {
            assert(n * pow2(0) * pow2(0) == n) by (nonlinear_arith)
                requires
                    pow2(0) == 1,
            ;
        }
    } else {
        let down = (place - s) as nat;
        let d = pow2(down);
        lemma_pow2_pos(down);
        lemma_round_half_even(n, d);
        vstd::arithmetic::div_mod::lemma_fundamental_div_mod(n as int, d as int);
        assert((n / d) * d == d * (n / d)) by (nonlinear_arith);
        if len >= down {
            lemma_pow2_adds((len - down) as nat, down);
            assert(n / d < pow2((len - down) as nat)) by (nonlinear_arith)
                requires
                    d * (n / d) <= n,
                    n < pow2((len - down) as nat) * d,
                    d > 0,
            ;
            if len - down < p + 1 {
                lemma_pow2_strictly_increases((len - down) as nat, p + 1);
            }
        } else {
            lemma_pow2_strictly_increases(len, down);
            vstd::arithmetic::div_mod::lemma_basic_div(n as int, d as int);
            lemma_pow2_pos(p);
        }
    }
}

/// A finite number that `nearest` gives with an exponent below the greatest.
pub(crate) proof fn lemma_nearest_is_finite<F: Float>(negative: bool, n: nat, s: int)
    requires
        n > 0,
        last_place::<F>(bit_length(n) + s) + F::fraction_bits() + 1 < F::bias(),
    ensures
        is_finite(nearest::<F>(negative, n, s)),
{
    F::lemma_format();
    lemma_units_in_last_place::<F>(n, s);
    let implied = pow2(F::fraction_bits());
    let units = units_in_last_place::<F>(n, s);
    lemma_pow2_pos(F::fraction_bits());
    vstd::arithmetic::div_mod::lemma_div_is_ordered(
        units as int,
        2 * implied as int,
        implied as int,
    );
    vstd::arithmetic::div_mod::lemma_div_multiples_vanish(2, implied as int);
    vstd::arithmetic::div_mod::lemma_mod_bound(units as int, implied as int);
    let exponent = last_place::<F>(bit_length(n) + s) + F::fraction_bits() + F::bias() - 1 + units
        / implied;
    assert(nearest::<F>(negative, n, s) == F::from_parts(
        negative,
        exponent as nat,
        units % implied,
    ));
}

/// To double a number is to add a bit to it.
pub proof fn lemma_bit_length_shift(n: nat, k: nat)
    requires
        n > 0,
    ensures
        bit_length(n * pow2(k)) == bit_length(n) + k,
{
    let len = bit_length(n);
    lemma_bit_length(n);
    lemma_pow2_pos(k);
    lemma_pow2_adds((len - 1) as nat, k);
    lemma_pow2_adds(len, k);
    assert(pow2((len - 1) as nat) * pow2(k) <= n * pow2(k)) by (nonlinear_arith)
        requires
            pow2((len - 1) as nat) <= n,
    ;
    assert(n * pow2(k) < pow2(len) * pow2(k)) by (nonlinear_arith)
        requires
            n < pow2(len),
            pow2(k) > 0,
    ;
    assert((len + k - 1) as nat == (len - 1) as nat + k);
    lemma_bit_length_unique(n * pow2(k), len + k);
}

/// A quotient rounds alike when both its terms are scaled alike.
pub proof fn lemma_round_half_even_scaled(n: nat, d: nat, c: nat)
    requires
        d > 0,
        c > 0,
    ensures
        round_half_even(n * c, d * c) == round_half_even(n, d),
{
    let q = n / d;
    let r = n % d;
    vstd::arithmetic::div_mod::lemma_fundamental_div_mod(n as int, d as int);
    vstd::arithmetic::div_mod::lemma_mod_bound(n as int, d as int);
    assert(n * c == q * (d * c) + r * c) by (nonlinear_arith)
        requires
            n == d * q + r,
    ;
    assert(0 <= r * c < d * c) by (nonlinear_arith)
        requires
            0 <= r < d,
            c > 0,
    ;
    vstd::arithmetic::div_mod::lemma_fundamental_div_mod_converse(
        (n * c) as int,
        (d * c) as int,
        q as int,
        (r * c) as int,
    );
    assert(2 * (r * c) < d * c <==> 2 * r < d) by (nonlinear_arith)
        requires
            c > 0,
    ;
    assert(2 * (r * c) == d * c <==> 2 * r == d) by (nonlinear_arith)
        requires
            c > 0,
    ;
}

/// The units of the last place depend on the value alone: they are the same
/// for `n * 2^k` scaled by `2^(s - k)` as for `n` scaled by `2^s`.
proof fn lemma_units_shift<F: Float>(n: nat, s: int, k: nat)
    requires
        n > 0,
    ensures
        bit_length(n * pow2(k)) + (s - k) == bit_length(n) + s,
        units_in_last_place::<F>(n * pow2(k), s - k) == units_in_last_place::<F>(n, s),
{
    lemma_bit_length_shift(n, k);
    lemma_pow2_pos(k);
    let place = last_place::<F>(bit_length(n) + s);
    let c = pow2(k);
    if s - k >= place {
        let rest = (s - k - place) as nat;
        lemma_pow2_adds(k, rest);
        assert((n * c) * pow2(rest) == n * (c * pow2(rest))) by (nonlinear_arith);
        assert((s - place) as nat == k + rest);
    } else if s >= place {
        let up = (s - place) as nat;
        let down = (place - (s - k)) as nat;
        let d = pow2(down);
        lemma_pow2_pos(down);
        lemma_pow2_adds(up, down);
        assert(up + down == k);
        assert(n * c == (n * pow2(up)) * d + 0) by (nonlinear_arith)
            requires
                c == pow2(up) * d,
        ;
        vstd::arithmetic::div_mod::lemma_fundamental_div_mod_converse(
            (n * c) as int,
            d as int,
            (n * pow2(up)) as int,
            0,
        );
        lemma_round_half_even(n * c, d);
    } else {
        let down = (place - s) as nat;
        let d = pow2(down);
        lemma_pow2_pos(down);
        lemma_pow2_adds(down, k);
        assert((place - (s - k)) as nat == down + k);
        lemma_round_half_even_scaled(n, d, c);
    }
}

/// The nearest number depends on the value alone: it is the same for
/// `n * 2^k` scaled by `2^(s - k)` as for `n` scaled by `2^s`.
pub proof fn lemma_nearest_shift<F: Float>(negative: bool, n: nat, s: int, k: nat)
    requires
        n > 0,
    ensures
        nearest::<F>(negative, n * pow2(k), s - k) == nearest::<F>(negative, n, s),
{
    lemma_units_shift::<F>(n, s, k);
    lemma_pow2_pos(k);
    assert(n * pow2(k) > 0) by (nonlinear_arith)
        requires
            n > 0,
            pow2(k) > 0,
    ;
}

/// A finite number is the number of its own format nearest to what it stands
/// for.
pub proof fn lemma_nearest_of_own<F: Float>(x: F)
    requires
        is_finite(x),
    ensures
        nearest::<F>(x.is_negative(), significand(x), scale(x)) == x,
{
    F::lemma_format();
    lemma_significand(x);
    let p = F::fraction_bits();
    let implied = pow2(p);
    let n = significand(x);
    let s = scale(x);
    lemma_pow2_pos(p);
    lemma2_to64();
    if n > 0 {
        lemma_bit_length(n);
        let len = bit_length(n);
        if x.exponent() != 0 {
            lemma_pow2_adds(p, 1);
            lemma_bit_length_unique(n, p + 1);
            vstd::arithmetic::div_mod::lemma_fundamental_div_mod_converse(
                n as int,
                implied as int,
                1,
                x.fraction() as int,
            );
        } else {
            if len > p {
                if len - 1 > p {
                    lemma_pow2_strictly_increases(p, (len - 1) as nat);
                }
            }
            assert(len <= p);
            vstd::arithmetic::div_mod::lemma_basic_div(n as int, implied as int);
            vstd::arithmetic::div_mod::lemma_small_mod(n, implied);
        }
        let place = last_place::<F>(len + s);
        assert(place == s);
        assert(n * pow2(0) == n) by (nonlinear_arith)
            requires
                pow2(0) == 1,
        ;
        assert(units_in_last_place::<F>(n, s) == n);
    }
}

} // verus!
