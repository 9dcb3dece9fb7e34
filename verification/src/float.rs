//! Floating point numbers in the binary formats of IEEE 754, held by their
//! encoding.
//!
//! A number is a sign, a biased exponent and a fraction.  With `p` fraction
//! bits and the bias `b`, a finite number stands for
//!
//! ```text
//! (-1)^sign * significand * 2^scale
//!
//! significand = fraction          scale = 1 - b - p          (exponent = 0)
//! significand = 2^p + fraction    scale = exponent - b - p   (otherwise)
//! ```
//!
//! The greatest exponent marks the infinities (fraction zero) and the values
//! that are not a number (any other fraction).  Every rule is stated over
//! these parts in integer arithmetic, so that it holds of the number exactly,
//! and is written once for both formats:
//!
//! - [`rounding`] finds the number of a format nearest to a given value;
//! - [`to_integer`] approximates a number by an integer;
//! - [`from_integer`] converts an integer to a number;
//! - [`between`] converts a number of one format to the other.
//!
//! The language's own floating point types turn into `F32` and `F64` by
//! `to_bits`, and back by `from_bits`.

use vstd::arithmetic::power2::{
    lemma2_to64, lemma_pow2_adds, lemma_pow2_pos, lemma_pow2_strictly_increases, pow2,
};
use vstd::prelude::*;

pub mod between;
pub mod from_integer;
pub mod rounding;
pub mod to_integer;

verus! {

/// A number in the single precision format (binary32), by its encoding.
#[derive(Copy, Clone, PartialEq, Eq, Debug, Structural)]
pub struct F32(pub u32);

/// A number in the double precision format (binary64), by its encoding.
#[derive(Copy, Clone, PartialEq, Eq, Debug, Structural)]
pub struct F64(pub u64);

/// A binary floating point format, and a number in it taken apart.
pub trait Float: Copy + Sized {
    /// The number of bits of the fraction.
    spec fn fraction_bits() -> nat;

    /// The bias of the exponent.
    spec fn bias() -> nat;

    /// The sign: whether the number is negative.
    spec fn is_negative(self) -> bool;

    /// The biased exponent.
    spec fn exponent(self) -> nat;

    /// The fraction.
    spec fn fraction(self) -> nat;

    /// The number with the given parts.
    spec fn from_parts(negative: bool, exponent: nat, fraction: nat) -> Self;

    /// The parts are within the limits of the format, which lie between
    /// those of the single and of the double precision format in range and
    /// do not exceed the latter in precision, and the numbers and their
    /// parts correspond one to one.
    proof fn lemma_format()
        ensures
            0 < Self::fraction_bits() <= 52,
            Self::fraction_bits() < Self::bias(),
            127 <= Self::bias() <= 1023,
            forall|x: Self| #[trigger] x.exponent() <= 2 * Self::bias() + 1,
            forall|x: Self| #[trigger] x.fraction() < pow2(Self::fraction_bits()),
            forall|x: Self| #[trigger]
                Self::from_parts(x.is_negative(), x.exponent(), x.fraction()) == x,
            forall|negative: bool, exponent: nat, fraction: nat|
                exponent <= 2 * Self::bias() + 1 && fraction < pow2(Self::fraction_bits()) ==> {
                    let x = #[trigger] Self::from_parts(negative, exponent, fraction);
                    x.is_negative() == negative && x.exponent() == exponent && x.fraction()
                        == fraction
                },
    ;

    /// Returns the number of bits of the fraction.
    fn fraction_width() -> (n: u32)
        ensures
            n == Self::fraction_bits(),
    ;

    /// Returns the bias of the exponent.
    fn exponent_bias() -> (n: u32)
        ensures
            n == Self::bias(),
    ;

    /// Takes the number apart: its sign, biased exponent and fraction.
    fn to_parts(self) -> (parts: (bool, u32, u64))
        ensures
            parts.0 == self.is_negative(),
            parts.1 == self.exponent(),
            parts.2 == self.fraction(),
    ;

    /// Puts a number together from its parts.
    fn of_parts(negative: bool, exponent: u32, fraction: u64) -> (x: Self)
        requires
            exponent <= 2 * Self::bias() + 1,
            fraction < pow2(Self::fraction_bits()),
        ensures
            x == Self::from_parts(negative, exponent as nat, fraction as nat),
    ;
}

impl F32 {
    /// The number with the encoding `bits`.
    pub fn from_bits(bits: u32) -> (x: F32)
        ensures
            x == F32(bits),
    {
        F32(bits)
    }

    /// The encoding of the number.
    pub fn to_bits(self) -> (bits: u32)
        ensures
            bits == self.0,
    {
        self.0
    }
}

impl F64 {
    /// The number with the encoding `bits`.
    pub fn from_bits(bits: u64) -> (x: F64)
        ensures
            x == F64(bits),
    {
        F64(bits)
    }

    /// The encoding of the number.
    pub fn to_bits(self) -> (bits: u64)
        ensures
            bits == self.0,
    {
        self.0
    }
}

impl Float for F32 {
    open spec fn fraction_bits() -> nat {
        23
    }

    open spec fn bias() -> nat {
        127
    }

    open spec fn is_negative(self) -> bool {
        self.0 >= 0x8000_0000
    }

    open spec fn exponent(self) -> nat {
        ((self.0 / 0x80_0000) % 0x100) as nat
    }

    open spec fn fraction(self) -> nat {
        (self.0 % 0x80_0000) as nat
    }

    open spec fn from_parts(negative: bool, exponent: nat, fraction: nat) -> F32 {
        F32(((if negative { 0x8000_0000 } else { 0int }) + exponent * 0x80_0000 + fraction) as u32)
    }

    proof fn lemma_format() {
        lemma2_to64();
    }

    fn fraction_width() -> (n: u32) {
        23
    }

    fn exponent_bias() -> (n: u32) {
        127
    }

    fn to_parts(self) -> (parts: (bool, u32, u64)) {
        (self.0 >= 0x8000_0000, (self.0 / 0x80_0000) % 0x100, (self.0 % 0x80_0000) as u64)
    }

    fn of_parts(negative: bool, exponent: u32, fraction: u64) -> (x: F32) {
        proof {
            lemma2_to64();
        }
        let sign: u32 = if negative { 0x8000_0000 } else { 0 };
        F32(sign + exponent * 0x80_0000 + fraction as u32)
    }
}

impl Float for F64 {
    open spec fn fraction_bits() -> nat {
        52
    }

    open spec fn bias() -> nat {
        1023
    }

    open spec fn is_negative(self) -> bool {
        self.0 >= 0x8000_0000_0000_0000
    }

    open spec fn exponent(self) -> nat {
        ((self.0 / 0x10_0000_0000_0000) % 0x800) as nat
    }

    open spec fn fraction(self) -> nat {
        (self.0 % 0x10_0000_0000_0000) as nat
    }

    open spec fn from_parts(negative: bool, exponent: nat, fraction: nat) -> F64 {
        F64(
            ((if negative { 0x8000_0000_0000_0000 } else { 0int }) + exponent
                * 0x10_0000_0000_0000 + fraction) as u64,
        )
    }

    proof fn lemma_format() {
        lemma2_to64();
        vstd::arithmetic::power2::lemma2_to64_rest();
    }

    fn fraction_width() -> (n: u32) {
        52
    }

    fn exponent_bias() -> (n: u32) {
        1023
    }

    fn to_parts(self) -> (parts: (bool, u32, u64)) {
        (
            self.0 >= 0x8000_0000_0000_0000,
            ((self.0 / 0x10_0000_0000_0000) % 0x800) as u32,
            self.0 % 0x10_0000_0000_0000,
        )
    }

    fn of_parts(negative: bool, exponent: u32, fraction: u64) -> (x: F64) {
        proof {
            lemma2_to64();
            vstd::arithmetic::power2::lemma2_to64_rest();
        }
        let sign: u64 = if negative { 0x8000_0000_0000_0000 } else { 0 };
        F64(sign + (exponent as u64) * 0x10_0000_0000_0000 + fraction)
    }
}

/// The greatest biased exponent, which marks what is not finite.
pub open spec fn max_exponent<F: Float>() -> nat {
    2 * F::bias() + 1
}

/// `x` is not a number.
pub open spec fn is_nan<F: Float>(x: F) -> bool {
    x.exponent() == max_exponent::<F>() && x.fraction() != 0
}

/// `x` is positive or negative infinity.
pub open spec fn is_infinite<F: Float>(x: F) -> bool {
    x.exponent() == max_exponent::<F>() && x.fraction() == 0
}

/// `x` is a number, and not an infinity.
pub open spec fn is_finite<F: Float>(x: F) -> bool {
    x.exponent() < max_exponent::<F>()
}

/// The significand of a finite `x`: its fraction, with the leading one that a
/// normal number implies.
pub open spec fn significand<F: Float>(x: F) -> nat {
    if x.exponent() == 0 {
        x.fraction()
    } else {
        pow2(F::fraction_bits()) + x.fraction()
    }
}

/// The power of two by which the significand of a finite `x` is scaled.
pub open spec fn scale<F: Float>(x: F) -> int {
    (if x.exponent() == 0 {
        1
    } else {
        x.exponent() as int
    }) - F::bias() - F::fraction_bits()
}

/// The significand of a finite `x` with the sign of `x`.
pub open spec fn signed_significand<F: Float>(x: F) -> int {
    if x.is_negative() {
        -(significand(x) as int)
    } else {
        significand(x) as int
    }
}

/// The infinity with the given sign.
pub open spec fn infinity<F: Float>(negative: bool) -> F {
    F::from_parts(negative, max_exponent::<F>(), 0)
}

/// The value that is not a number, in its usual quiet form, with the given
/// sign.
pub open spec fn quiet_nan<F: Float>(negative: bool) -> F {
    F::from_parts(negative, max_exponent::<F>(), pow2((F::fraction_bits() - 1) as nat))
}

/// The greatest finite number of `F`, with the given sign.
pub open spec fn greatest<F: Float>(negative: bool) -> F {
    F::from_parts(
        negative,
        (max_exponent::<F>() - 1) as nat,
        (pow2(F::fraction_bits()) - 1) as nat,
    )
}

/// `n1 * 2^s1 > n2 * 2^s2`.
pub open spec fn scaled_gt(n1: nat, s1: int, n2: nat, s2: int) -> bool {
    if s1 >= s2 {
        n1 * pow2((s1 - s2) as nat) > n2
    } else {
        n1 > n2 * pow2((s2 - s1) as nat)
    }
}

/// `n1 * 2^s1 == n2 * 2^s2`.
pub open spec fn scaled_eq(n1: nat, s1: int, n2: nat, s2: int) -> bool {
    if s1 >= s2 {
        n1 * pow2((s1 - s2) as nat) == n2
    } else {
        n1 == n2 * pow2((s2 - s1) as nat)
    }
}

/// Returns two to the power of `e`, for every power that 128 bits hold.
pub fn power_of_two(e: u32) -> (r: u128)
    requires
        e <= 127,
    ensures
        r == pow2(e as nat),
{
    let mut r: u128 = 1;
    let mut i: u32 = 0;
    proof {
        lemma2_to64();
        vstd::arithmetic::power2::lemma2_to64_rest();
        lemma_pow2_adds(64, 63);
        assert(pow2(127) == 0x8000_0000_0000_0000_0000_0000_0000_0000) by (nonlinear_arith)
            requires
                pow2(127) == pow2(64) * pow2(63),
                pow2(64) == 0x1_0000_0000_0000_0000,
                pow2(63) == 0x8000_0000_0000_0000,
        ;
    }
    while i < e
        invariant
            i <= e <= 127,
            r == pow2(i as nat),
            pow2(127) == 0x8000_0000_0000_0000_0000_0000_0000_0000,
        decreases e - i,
    {
        proof {
            lemma_pow2_adds(i as nat, 1);
            lemma2_to64();
            if i + 1 < 127 {
                lemma_pow2_strictly_increases((i + 1) as nat, 127);
            }
        }
        r = r * 2;
        i = i + 1;
    }
    r
}

/// The parts of a finite number, as the rules compute with them: the
/// significand is below two to the power of one more than the fraction bits,
/// and that of a normal number reaches two to the power of the fraction bits.
pub(crate) proof fn lemma_significand<F: Float>(x: F)
    requires
        is_finite(x),
    ensures
        significand(x) < pow2(F::fraction_bits() + 1),
        x.exponent() != 0 ==> significand(x) >= pow2(F::fraction_bits()),
        pow2(F::fraction_bits() + 1) == 2 * pow2(F::fraction_bits()),
        pow2(F::fraction_bits()) <= 0x10_0000_0000_0000,
        1 - F::bias() - F::fraction_bits() <= scale(x) <= F::bias() - F::fraction_bits(),
{
    F::lemma_format();
    lemma_pow2_adds(F::fraction_bits(), 1);
    lemma2_to64();
    vstd::arithmetic::power2::lemma2_to64_rest();
    if F::fraction_bits() < 52 {
        lemma_pow2_strictly_increases(F::fraction_bits(), 52);
    }
}

/// Returns the significand and the scale of a finite number.
pub fn significand_and_scale<F: Float>(x: F) -> (r: (u64, i32))
    requires
        is_finite(x),
    ensures
        r.0 == significand(x),
        r.1 == scale(x),
{
    proof {
        F::lemma_format();
        lemma_significand(x);
    }
    let (_, exponent, fraction) = x.to_parts();
    let p = F::fraction_width();
    let bias = F::exponent_bias();
    if exponent == 0 {
        (fraction, 1 - bias as i32 - p as i32)
    } else {
        (power_of_two(p) as u64 + fraction, exponent as i32 - bias as i32 - p as i32)
    }
}

/// Returns whether `n1 * 2^s1 > n2 * 2^s2`.
pub fn scaled_exceeds(n1: u64, s1: i32, n2: u64, s2: i32) -> (r: bool)
    ensures
        r == scaled_gt(n1 as nat, s1 as int, n2 as nat, s2 as int),
{
    proof {
        lemma2_to64();
    }
    if s1 >= s2 {
        let up = s1 as i64 - s2 as i64;
        proof {
            lemma_pow2_pos(up as nat);
        }
        if n1 == 0 {
            assert(0 * pow2(up as nat) == 0) by (nonlinear_arith);
            false
        } else if up >= 64 {
            proof {
                if up > 64 {
                    lemma_pow2_strictly_increases(64, up as nat);
                }
                assert(n1 * pow2(up as nat) >= pow2(up as nat)) by (nonlinear_arith)
                    requires
                        n1 >= 1,
                ;
            }
            true
        } else {
            proof {
                lemma_pow2_strictly_increases(up as nat, 64);
                assert(n1 * pow2(up as nat) < 0x1_0000_0000_0000_0000 * 0x1_0000_0000_0000_0000)
                    by (nonlinear_arith)
                    requires
                        n1 < 0x1_0000_0000_0000_0000,
                        pow2(up as nat) < 0x1_0000_0000_0000_0000,
                ;
            }
            n1 as u128 * power_of_two(up as u32) > n2 as u128
        }
    } else {
        let down = s2 as i64 - s1 as i64;
        proof {
            lemma_pow2_pos(down as nat);
        }
        if n2 == 0 {
            assert(0 * pow2(down as nat) == 0) by (nonlinear_arith);
            n1 > 0
        } else if down >= 64 {
            proof {
                if down > 64 {
                    lemma_pow2_strictly_increases(64, down as nat);
                }
                assert(n2 * pow2(down as nat) >= pow2(down as nat)) by (nonlinear_arith)
                    requires
                        n2 >= 1,
                ;
            }
            false
        } else {
            proof {
                lemma_pow2_strictly_increases(down as nat, 64);
                assert(n2 * pow2(down as nat) < 0x1_0000_0000_0000_0000 * 0x1_0000_0000_0000_0000)
                    by (nonlinear_arith)
                    requires
                        n2 < 0x1_0000_0000_0000_0000,
                        pow2(down as nat) < 0x1_0000_0000_0000_0000,
                ;
            }
            n1 as u128 > n2 as u128 * power_of_two(down as u32)
        }
    }
}

} // verus!
