//! The fixed-width integer types seen through the mathematical integers, and
//! the rules by which a value of one converts to another.
//!
//! Every rule is written once, generically over the source and destination
//! type; the rule tables in `impls` pick, for each pair of types, the rule with
//! the narrowest error type that the pair allows.

use crate::errors::{NoError, Overflow, RangeError, Underflow, UnwrapOrSaturate};
use crate::misc::Saturated;
use crate::ValueFrom;
use vstd::arithmetic::power2::{lemma2_to64, lemma2_to64_rest, pow2};
use vstd::prelude::*;
use vstd::std_specs::convert::FromSpec;

verus! {

/// A fixed-width integer type.
///
/// Its values stand for the mathematical integers from `min_value()` to
/// `max_value()`, each for exactly one, and the two bounds are what the type
/// saturates to.  A value can be widened to `i128`, which holds every value of
/// every such type, and brought back.
pub trait Integer: Copy + Saturated {
    /// The least integer that the type holds.
    spec fn min_value() -> int;

    /// The greatest integer that the type holds.
    spec fn max_value() -> int;

    /// The number of bits that hold the magnitude of a value: all the bits of
    /// the type, but for the sign bit where it has one.
    spec fn magnitude_bits() -> nat;

    /// The integer that `self` stands for.
    spec fn value(self) -> int;

    /// The value of the type that stands for `v`, for `v` within the bounds.
    spec fn from_int(v: int) -> Self;

    /// The values of the type and the integers within its bounds correspond
    /// one to one.  The bounds are those of an unsigned type, or of a signed
    /// type in two's complement, of no more than 64 bits, and are what the
    /// saturated values stand for.
    proof fn lemma_bounds()
        ensures
            i64::MIN <= Self::min_value() <= 0,
            0 < Self::max_value() <= u64::MAX,
            0 < Self::magnitude_bits() <= 64,
            Self::max_value() + 1 == pow2(Self::magnitude_bits()),
            Self::min_value() == 0 || Self::min_value() == -(Self::max_value() + 1),
            Self::saturated_min_spec().value() == Self::min_value(),
            Self::saturated_max_spec().value() == Self::max_value(),
            forall|x: Self| Self::min_value() <= #[trigger] x.value() <= Self::max_value(),
            forall|x: Self| Self::from_int(#[trigger] x.value()) == x,
            forall|v: int|
                Self::min_value() <= v <= Self::max_value() ==> #[trigger] Self::from_int(
                    v,
                ).value() == v,
    ;

    /// `self`, widened.
    fn to_wide(self) -> (w: i128)
        ensures
            w == self.value(),
    ;

    /// The value of the type that stands for `w`.
    fn from_wide(w: i128) -> (x: Self)
        requires
            Self::min_value() <= w <= Self::max_value(),
        ensures
            x == Self::from_int(w as int),
    ;
}

/// No value of `S` lies below the least value of `D`.
pub open spec fn never_underflows<S: Integer, D: Integer>() -> bool {
    D::min_value() <= S::min_value()
}

/// No value of `S` lies above the greatest value of `D`.
pub open spec fn never_overflows<S: Integer, D: Integer>() -> bool {
    S::max_value() <= D::max_value()
}

/// The exact conversion: `src` as a value of `D` if `D` holds the integer that
/// `src` stands for; else on which side it lies.
pub open spec fn exact<S: Integer, D: Integer>(src: S) -> Result<D, RangeError> {
    if src.value() < D::min_value() {
        Err(RangeError::Underflow)
    } else if src.value() > D::max_value() {
        Err(RangeError::Overflow)
    } else {
        Ok(D::from_int(src.value()))
    }
}

/// The exact conversion between types for which it can only fail by
/// underflow.
pub open spec fn exact_or_underflow<S: Integer, D: Integer>(src: S) -> Result<D, Underflow> {
    if src.value() < D::min_value() {
        Err(Underflow)
    } else {
        Ok(D::from_int(src.value()))
    }
}

/// The exact conversion between types for which it can only fail by overflow.
pub open spec fn exact_or_overflow<S: Integer, D: Integer>(src: S) -> Result<D, Overflow> {
    if src.value() > D::max_value() {
        Err(Overflow)
    } else {
        Ok(D::from_int(src.value()))
    }
}

/// The exact conversion between types for which it cannot fail.
pub open spec fn exact_always<S: Integer, D: Integer>(src: S) -> Result<D, NoError> {
    Ok(D::from_int(src.value()))
}

/// `v`, or the nearer of `min` and `max` if it lies outside them.
pub open spec fn clamp(v: int, min: int, max: int) -> int {
    if v < min {
        min
    } else if v > max {
        max
    } else {
        v
    }
}

/// The number of bits of `T`.  It has two to the power of that many values.
pub open spec fn bits<T: Integer>() -> nat {
    if T::min_value() < 0 {
        T::magnitude_bits() + 1
    } else {
        T::magnitude_bits()
    }
}

/// The one integer from `min` to `max` that differs from `v` by a multiple of
/// the number of integers in that range.
pub open spec fn wrap(v: int, min: int, max: int) -> int {
    min + (v - min) % (max - min + 1)
}

/// The wrapping conversion: the value of `D` that stands for `src` reduced
/// into the range of `D`.  For a type of `n` bits this keeps the low `n` bits
/// of the two's complement form of `src`.
pub open spec fn wrapping<S: Integer, D: Integer>(src: S) -> Result<D, NoError> {
    Ok(D::from_int(wrap(src.value(), D::min_value(), D::max_value())))
}

/// Converts `src` exactly, or says on which side of `D` it lies.
pub fn convert_checked<S: Integer, D: Integer>(src: S) -> (r: Result<D, RangeError>)
    ensures
        r == exact::<S, D>(src),
{
    proof {
        D::lemma_bounds();
    }
    let w = src.to_wide();
    if w < D::saturated_min().to_wide() {
        Err(RangeError::Underflow)
    } else if w > D::saturated_max().to_wide() {
        Err(RangeError::Overflow)
    } else {
        Ok(D::from_wide(w))
    }
}

/// Converts `src` exactly, where `D` holds every value of `S` but those below
/// its least.
pub fn convert_or_underflow<S: Integer, D: Integer>(src: S) -> (r: Result<D, Underflow>)
    requires
        never_overflows::<S, D>(),
    ensures
        r == exact_or_underflow::<S, D>(src),
{
    proof {
        S::lemma_bounds();
        D::lemma_bounds();
    }
    let w = src.to_wide();
    if w < D::saturated_min().to_wide() {
        Err(Underflow)
    } else {
        Ok(D::from_wide(w))
    }
}

/// Converts `src` exactly, where `D` holds every value of `S` but those above
/// its greatest.
pub fn convert_or_overflow<S: Integer, D: Integer>(src: S) -> (r: Result<D, Overflow>)
    requires
        never_underflows::<S, D>(),
    ensures
        r == exact_or_overflow::<S, D>(src),
{
    proof {
        S::lemma_bounds();
        D::lemma_bounds();
    }
    let w = src.to_wide();
    if w > D::saturated_max().to_wide() {
        Err(Overflow)
    } else {
        Ok(D::from_wide(w))
    }
}

/// Converts `src` exactly, where `D` holds every value of `S`.
pub fn convert_always<S: Integer, D: Integer>(src: S) -> (r: Result<D, NoError>)
    requires
        never_underflows::<S, D>(),
        never_overflows::<S, D>(),
    ensures
        r == exact_always::<S, D>(src),
{
    proof {
        S::lemma_bounds();
    }
    Ok(D::from_wide(src.to_wide()))
}

/// Converts `src` by reducing it into the range of `D`.
pub fn convert_wrapping<S: Integer, D: Integer>(src: S) -> (r: Result<D, NoError>)
    ensures
        r == wrapping::<S, D>(src),
{
    proof {
        S::lemma_bounds();
        D::lemma_bounds();
    }
    let min = D::saturated_min().to_wide();
    let count = D::saturated_max().to_wide() - min + 1;
    let offset = src.to_wide() - min;
    match offset.checked_rem_euclid(count) {
        Some(rest) => Ok(D::from_wide(min + rest)),
        None => unreached(),
    }
}

impl Integer for i8 {
    open spec fn min_value() -> int {
        i8::MIN as int
    }

    open spec fn max_value() -> int {
        i8::MAX as int
    }

    open spec fn magnitude_bits() -> nat {
        7
    }

    open spec fn value(self) -> int {
        self as int
    }

    open spec fn from_int(v: int) -> i8 {
        v as i8
    }

    proof fn lemma_bounds() {
        lemma2_to64();
        lemma2_to64_rest();
    }

    fn to_wide(self) -> (w: i128) {
        self as i128
    }

    fn from_wide(w: i128) -> (x: i8) {
        w as i8
    }
}

impl Integer for i16 {
    open spec fn min_value() -> int {
        i16::MIN as int
    }

    open spec fn max_value() -> int {
        i16::MAX as int
    }

    open spec fn magnitude_bits() -> nat {
        15
    }

    open spec fn value(self) -> int {
        self as int
    }

    open spec fn from_int(v: int) -> i16 {
        v as i16
    }

    proof fn lemma_bounds() {
        lemma2_to64();
        lemma2_to64_rest();
    }

    fn to_wide(self) -> (w: i128) {
        self as i128
    }

    fn from_wide(w: i128) -> (x: i16) {
        w as i16
    }
}

impl Integer for i32 {
    open spec fn min_value() -> int {
        i32::MIN as int
    }

    open spec fn max_value() -> int {
        i32::MAX as int
    }

    open spec fn magnitude_bits() -> nat {
        31
    }

    open spec fn value(self) -> int {
        self as int
    }

    open spec fn from_int(v: int) -> i32 {
        v as i32
    }

    proof fn lemma_bounds() {
        lemma2_to64();
        lemma2_to64_rest();
    }

    fn to_wide(self) -> (w: i128) {
        self as i128
    }

    fn from_wide(w: i128) -> (x: i32) {
        w as i32
    }
}

impl Integer for i64 {
    open spec fn min_value() -> int {
        i64::MIN as int
    }

    open spec fn max_value() -> int {
        i64::MAX as int
    }

    open spec fn magnitude_bits() -> nat {
        63
    }

    open spec fn value(self) -> int {
        self as int
    }

    open spec fn from_int(v: int) -> i64 {
        v as i64
    }

    proof fn lemma_bounds() {
        lemma2_to64();
        lemma2_to64_rest();
    }

    fn to_wide(self) -> (w: i128) {
        self as i128
    }

    fn from_wide(w: i128) -> (x: i64) {
        w as i64
    }
}

impl Integer for isize {
    open spec fn min_value() -> int {
        isize::MIN as int
    }

    open spec fn max_value() -> int {
        isize::MAX as int
    }

    open spec fn magnitude_bits() -> nat {
        if isize::MAX == 0x7FFF_FFFF {
            31
        } else {
            63
        }
    }

    open spec fn value(self) -> int {
        self as int
    }

    open spec fn from_int(v: int) -> isize {
        v as isize
    }

    proof fn lemma_bounds() {
        lemma2_to64();
        lemma2_to64_rest();
    }

    fn to_wide(self) -> (w: i128) {
        self as i128
    }

    fn from_wide(w: i128) -> (x: isize) {
        w as isize
    }
}

impl Integer for u8 {
    open spec fn min_value() -> int {
        u8::MIN as int
    }

    open spec fn max_value() -> int {
        u8::MAX as int
    }

    open spec fn magnitude_bits() -> nat {
        8
    }

    open spec fn value(self) -> int {
        self as int
    }

    open spec fn from_int(v: int) -> u8 {
        v as u8
    }

    proof fn lemma_bounds() {
        lemma2_to64();
        lemma2_to64_rest();
    }

    fn to_wide(self) -> (w: i128) {
        self as i128
    }

    fn from_wide(w: i128) -> (x: u8) {
        w as u8
    }
}

impl Integer for u16 {
    open spec fn min_value() -> int {
        u16::MIN as int
    }

    open spec fn max_value() -> int {
        u16::MAX as int
    }

    open spec fn magnitude_bits() -> nat {
        16
    }

    open spec fn value(self) -> int {
        self as int
    }

    open spec fn from_int(v: int) -> u16 {
        v as u16
    }

    proof fn lemma_bounds() {
        lemma2_to64();
        lemma2_to64_rest();
    }

    fn to_wide(self) -> (w: i128) {
        self as i128
    }

    fn from_wide(w: i128) -> (x: u16) {
        w as u16
    }
}

impl Integer for u32 {
    open spec fn min_value() -> int {
        u32::MIN as int
    }

    open spec fn max_value() -> int {
        u32::MAX as int
    }

    open spec fn magnitude_bits() -> nat {
        32
    }

    open spec fn value(self) -> int {
        self as int
    }

    open spec fn from_int(v: int) -> u32 {
        v as u32
    }

    proof fn lemma_bounds() {
        lemma2_to64();
        lemma2_to64_rest();
    }

    fn to_wide(self) -> (w: i128) {
        self as i128
    }

    fn from_wide(w: i128) -> (x: u32) {
        w as u32
    }
}

impl Integer for u64 {
    open spec fn min_value() -> int {
        u64::MIN as int
    }

    open spec fn max_value() -> int {
        u64::MAX as int
    }

    open spec fn magnitude_bits() -> nat {
        64
    }

    open spec fn value(self) -> int {
        self as int
    }

    open spec fn from_int(v: int) -> u64 {
        v as u64
    }

    proof fn lemma_bounds() {
        lemma2_to64();
        lemma2_to64_rest();
    }

    fn to_wide(self) -> (w: i128) {
        self as i128
    }

    fn from_wide(w: i128) -> (x: u64) {
        w as u64
    }
}

impl Integer for usize {
    open spec fn min_value() -> int {
        usize::MIN as int
    }

    open spec fn max_value() -> int {
        usize::MAX as int
    }

    open spec fn magnitude_bits() -> nat {
        if usize::MAX == 0xFFFF_FFFF {
            32
        } else {
            64
        }
    }

    open spec fn value(self) -> int {
        self as int
    }

    open spec fn from_int(v: int) -> usize {
        v as usize
    }

    proof fn lemma_bounds() {
        lemma2_to64();
        lemma2_to64_rest();
    }

    fn to_wide(self) -> (w: i128) {
        self as i128
    }

    fn from_wide(w: i128) -> (x: usize) {
        w as usize
    }
}

/// An exact conversion that succeeds keeps the integer that the value stands
/// for, and converting back gives the value it came from.
pub proof fn lemma_exact_preserves_value<S: Integer, D: Integer>(src: S)
    ensures
        exact::<S, D>(src) matches Ok(dst) ==> dst.value() == src.value() && exact::<D, S>(dst)
            == Ok::<S, RangeError>(src),
        exact::<S, D>(src) is Ok <==> D::min_value() <= src.value() <= D::max_value(),
        exact::<S, D>(src) == Err::<D, RangeError>(RangeError::Underflow) <==> src.value()
            < D::min_value(),
        exact::<S, D>(src) == Err::<D, RangeError>(RangeError::Overflow) <==> src.value()
            > D::max_value(),
{
    S::lemma_bounds();
    D::lemma_bounds();
}

/// Converting a value to itself always succeeds and changes nothing.
pub proof fn lemma_exact_reflexive<T: Integer>(src: T)
    ensures
        exact::<T, T>(src) == Ok::<T, RangeError>(src),
        wrapping::<T, T>(src) == Ok::<T, NoError>(src),
{
    T::lemma_bounds();
    let count = T::max_value() - T::min_value() + 1;
    vstd::arithmetic::div_mod::lemma_small_mod((src.value() - T::min_value()) as nat, count as nat);
}

/// Exact conversions compose: where `a` converts to `b` and `b` to `c`, the
/// direct conversion of `a` succeeds too and gives the same `c`.  Where the
/// first step fails there is no `b` to go on with, so the chain has failed.
pub proof fn lemma_exact_chain<A: Integer, B: Integer, C: Integer>(a: A)
    ensures
        exact::<A, B>(a) matches Ok(b) ==> (exact::<B, C>(b) matches Ok(c) ==> exact::<A, C>(a)
            == Ok::<C, RangeError>(c)),
        exact::<A, B>(a) matches Ok(b) ==> (exact::<A, C>(a) matches Ok(c) ==> exact::<B, C>(b)
            == Ok::<C, RangeError>(c)),
{
    A::lemma_bounds();
    B::lemma_bounds();
    C::lemma_bounds();
}

/// The rules with a narrower error type agree with the general rule wherever
/// they apply: they give the same value, and the same error once it is
/// widened.
pub proof fn lemma_exact_narrow_errors<S: Integer, D: Integer>(src: S)
    ensures
        never_overflows::<S, D>() ==> exact::<S, D>(src) == match exact_or_underflow::<S, D>(src) {
            Ok(dst) => Ok::<D, RangeError>(dst),
            Err(e) => Err(RangeError::from_spec(e)),
        },
        never_underflows::<S, D>() ==> exact::<S, D>(src) == match exact_or_overflow::<S, D>(src) {
            Ok(dst) => Ok::<D, RangeError>(dst),
            Err(e) => Err(RangeError::from_spec(e)),
        },
        never_underflows::<S, D>() && never_overflows::<S, D>() ==> exact::<S, D>(src) is Ok
            && exact::<S, D>(src)->Ok_0 == exact_always::<S, D>(src)->Ok_0,
{
    S::lemma_bounds();
    D::lemma_bounds();
}

/// `wrap` gives an integer within the range that differs from `v` by a
/// multiple of the size of the range; an integer within the range is left as
/// it is.
pub proof fn lemma_wrap(v: int, min: int, max: int)
    requires
        min <= max,
    ensures
        min <= wrap(v, min, max) <= max,
        (wrap(v, min, max) - v) % (max - min + 1) == 0,
        min <= v <= max ==> wrap(v, min, max) == v,
{
    let m = max - min + 1;
    let q = (v - min) / m;
    vstd::arithmetic::div_mod::lemma_fundamental_div_mod(v - min, m);
    assert(wrap(v, min, max) - v == m * (-q) + 0) by (nonlinear_arith)
        requires
            v - min == m * q + (wrap(v, min, max) - min),
    ;
    vstd::arithmetic::div_mod::lemma_fundamental_div_mod_converse(
        wrap(v, min, max) - v,
        m,
        -q,
        0,
    );
    if min <= v <= max {
        vstd::arithmetic::div_mod::lemma_small_mod((v - min) as nat, m as nat);
    }
}

/// `wrap(v, min, max)` is the only integer within the range that differs from
/// `v` by a multiple of the size of the range.
pub proof fn lemma_wrap_unique(v: int, w: int, min: int, max: int)
    requires
        min <= w <= max,
        (w - v) % (max - min + 1) == 0,
    ensures
        w == wrap(v, min, max),
{
    let m = max - min + 1;
    let k = (w - v) / m;
    let j = (v - min) / m;
    vstd::arithmetic::div_mod::lemma_fundamental_div_mod(w - v, m);
    vstd::arithmetic::div_mod::lemma_fundamental_div_mod(v - min, m);
    assert(w - min == m * (k + j) + (wrap(v, min, max) - min)) by (nonlinear_arith)
        requires
            w - v == m * k + 0,
            v - min == m * j + (wrap(v, min, max) - min),
    ;
    vstd::arithmetic::div_mod::lemma_fundamental_div_mod_converse(
        w - min,
        m,
        k + j,
        wrap(v, min, max) - min,
    );
    vstd::arithmetic::div_mod::lemma_small_mod((w - min) as nat, m as nat);
}

/// The wrapping conversion always succeeds.  Its result stands for the one
/// integer of `D` that differs from the source by a multiple of two to the
/// power of the bits of `D`: it keeps the low bits of the source in two's
/// complement.  Where the source lies within `D`, that is the source itself,
/// so wrapping agrees with the exact conversion wherever the latter succeeds.
pub proof fn lemma_wrapping_total<S: Integer, D: Integer>(src: S)
    ensures
        wrapping::<S, D>(src) is Ok,
        D::min_value() <= wrapping::<S, D>(src)->Ok_0.value() <= D::max_value(),
        (wrapping::<S, D>(src)->Ok_0.value() - src.value()) % (pow2(bits::<D>()) as int) == 0,
        D::max_value() - D::min_value() + 1 == pow2(bits::<D>()),
        exact::<S, D>(src) matches Ok(dst) ==> wrapping::<S, D>(src) == Ok::<D, NoError>(dst),
{
    S::lemma_bounds();
    D::lemma_bounds();
    vstd::arithmetic::power2::lemma_pow2_adds(D::magnitude_bits(), 1);
    lemma2_to64();
    lemma_wrap(src.value(), D::min_value(), D::max_value());
}

/// Of all the values of `D`, only the result of the wrapping conversion
/// differs from the source by a multiple of two to the power of the bits of
/// `D`.
pub proof fn lemma_wrapping_unique<S: Integer, D: Integer>(src: S, dst: D)
    requires
        (dst.value() - src.value()) % (pow2(bits::<D>()) as int) == 0,
    ensures
        wrapping::<S, D>(src) == Ok::<D, NoError>(dst),
{
    S::lemma_bounds();
    D::lemma_bounds();
    vstd::arithmetic::power2::lemma_pow2_adds(D::magnitude_bits(), 1);
    lemma2_to64();
    lemma_wrap_unique(src.value(), dst.value(), D::min_value(), D::max_value());
}

/// To convert exactly and saturate on failure is to take the value of `D`
/// nearest to the source, with the narrower error types too wherever their
/// rules apply.
pub proof fn lemma_saturating_conversion<S: Integer, D: Integer>(src: S)
    ensures
        exact::<S, D>(src).unwrap_or_saturate_spec().value() == clamp(
            src.value(),
            D::min_value(),
            D::max_value(),
        ),
        never_overflows::<S, D>() ==> exact_or_underflow::<S, D>(
            src,
        ).unwrap_or_saturate_spec().value() == clamp(src.value(), D::min_value(), D::max_value()),
        never_underflows::<S, D>() ==> exact_or_overflow::<S, D>(
            src,
        ).unwrap_or_saturate_spec().value() == clamp(src.value(), D::min_value(), D::max_value()),
{
    S::lemma_bounds();
    D::lemma_bounds();
}

/// The exact conversion from `Src` into the type is the exact conversion of
/// the integers: `value_from` succeeds where `exact` does, with the same
/// value.  The rule tables show it of each pair of integer types.
pub trait ExactInteger<Src: Integer>: Integer + ValueFrom<Src> {
    /// `value_from` follows `exact`.
    proof fn lemma_value_from_is_exact(src: Src)
        ensures
            match Self::value_from_spec(src) {
                Ok(dst) => exact::<Src, Self>(src) == Ok::<Self, RangeError>(dst),
                Err(_) => exact::<Src, Self>(src) is Err,
            },
    ;
}

impl<T: Integer> ExactInteger<T> for T {
    proof fn lemma_value_from_is_exact(src: T) {
        T::lemma_bounds();
    }
}

/// Exact conversions compose, whatever the three integer types: where `a`
/// converts to `b` and `b` to `c`, the direct conversion of `a` succeeds too
/// and gives the same `c`, and all three stand for the same integer.
pub proof fn lemma_value_from_chain<A, B, C>(a: A) where
    A: Integer,
    B: ExactInteger<A>,
    C: ExactInteger<B> + ExactInteger<A>,

    ensures
        match <B as ValueFrom<A>>::value_from_spec(a) {
            Ok(b) => match <C as ValueFrom<B>>::value_from_spec(b) {
                Ok(c) => {
                    &&& <C as ValueFrom<A>>::value_from_spec(a) matches Ok(direct)
                    &&& direct == c
                    &&& b.value() == a.value()
                    &&& c.value() == a.value()
                },
                Err(_) => true,
            },
            Err(_) => true,
        },
{
    A::lemma_bounds();
    B::lemma_bounds();
    C::lemma_bounds();
    <B as ExactInteger<A>>::lemma_value_from_is_exact(a);
    <C as ExactInteger<A>>::lemma_value_from_is_exact(a);
    if let Ok(b) = <B as ValueFrom<A>>::value_from_spec(a) {
        <C as ExactInteger<B>>::lemma_value_from_is_exact(b);
    }
}

} // verus!
