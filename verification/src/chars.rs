//! The rules by which characters convert to integers and integers to
//! characters.
//!
//! A `char` is a Unicode scalar value: a code point from 0 to 0x10FFFF that is
//! not a surrogate (0xD800 to 0xDFFF).  The integers thus have holes that no
//! character stands for, and a conversion that meets one reports the integer
//! it was given.

use crate::errors::{NoError, Overflow, Unrepresentable};
use crate::integer::{convert_checked, convert_or_overflow, exact_or_overflow, Integer};
use vstd::prelude::*;

verus! {

/// The greatest code point.
pub const MAX_CODE_POINT: u32 = 0x10FFFF;

/// `v` is the code point of a character.
pub open spec fn is_scalar_value(v: int) -> bool {
    0 <= v <= 0xD7FF || 0xE000 <= v <= MAX_CODE_POINT
}

/// The character with the code point that `src` stands for, if there is one;
/// else `src`, as unrepresentable.
pub open spec fn scalar_value<S: Integer>(src: S) -> Result<char, Unrepresentable<S>> {
    if is_scalar_value(src.value()) {
        Ok(src.value() as char)
    } else {
        Err(Unrepresentable(src))
    }
}

/// The code point of `src` as a `D`, for a `D` that holds every code point.
pub open spec fn code_point<D: Integer>(src: char) -> Result<D, NoError> {
    Ok(D::from_int(src as int))
}

/// The code point of `src` as a `D`, if `D` holds it.
pub open spec fn code_point_or_overflow<D: Integer>(src: char) -> Result<D, Overflow> {
    exact_or_overflow::<u32, D>(src as u32)
}

/// `char::from_u32` of the standard library, which its documentation
/// describes: it returns the character whose code point is `i`, and `None`
/// exactly when `i` is a surrogate or greater than 0x10FFFF.
pub assume_specification[ char::from_u32 ](i: u32) -> (c: Option<char>)
    ensures
        c == if is_scalar_value(i as int) {
            Some(i as char)
        } else {
            None::<char>
        },
;

/// Every character has a code point, and it is a scalar value.
pub proof fn lemma_char_is_scalar_value(c: char)
    ensures
        is_scalar_value(c as int),
        c as int as char == c,
{
}

/// Converts an integer to the character with that code point.
pub fn convert_to_char<S: Integer>(src: S) -> (r: Result<char, Unrepresentable<S>>)
    ensures
        r == scalar_value::<S>(src),
{
    proof {
        S::lemma_bounds();
    }
    match convert_checked::<S, u32>(src) {
        Ok(code) => match char::from_u32(code) {
            Some(c) => Ok(c),
            None => Err(Unrepresentable(src)),
        },
        Err(_) => Err(Unrepresentable(src)),
    }
}

/// Converts a character to its code point, in a type that holds every code
/// point.
pub fn convert_from_char<D: Integer>(src: char) -> (r: Result<D, NoError>)
    requires
        D::max_value() >= MAX_CODE_POINT,
    ensures
        r == code_point::<D>(src),
{
    proof {
        D::lemma_bounds();
    }
    let code: u32 = src as u32;
    Ok(D::from_wide(code as i128))
}

/// Converts a character to its code point, in a type that may be too narrow
/// for it.
pub fn convert_from_char_or_overflow<D: Integer>(src: char) -> (r: Result<D, Overflow>)
    ensures
        r == code_point_or_overflow::<D>(src),
{
    proof {
        D::lemma_bounds();
    }
    convert_or_overflow::<u32, D>(src as u32)
}

/// Characters and integers convert back and forth without change: the code
/// point of a character converts back to that character, and an integer that
/// converts to a character is that character's code point.
pub proof fn lemma_char_round_trip<T: Integer>(c: char, i: T)
    ensures
        code_point_or_overflow::<T>(c) matches Ok(code) ==> scalar_value::<T>(code) == Ok::<
            char,
            Unrepresentable<T>,
        >(c),
        T::max_value() >= MAX_CODE_POINT ==> scalar_value::<T>(code_point::<T>(c)->Ok_0) == Ok::<
            char,
            Unrepresentable<T>,
        >(c),
        scalar_value::<T>(i) matches Ok(ch) ==> ch as int == i.value(),
        scalar_value::<T>(i) matches Err(e) ==> e.0 == i && !is_scalar_value(i.value()),
{
    T::lemma_bounds();
}

} // verus!
