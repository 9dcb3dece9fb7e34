//! The conversions between `char` and the integer types.
//!
//! A type of at least 32 bits holds every code point, so a character converts
//! to it without error; to a narrower type the conversion can overflow.  An
//! integer converts to a character if it is a Unicode scalar value; only `u8`
//! has none but such values.

use crate::chars::{
    code_point, code_point_or_overflow, convert_from_char, convert_from_char_or_overflow,
    convert_to_char, scalar_value,
};
use crate::errors::{NoError, Overflow, Unrepresentable};
use crate::TryFrom;
use vstd::prelude::*;

verus! {

impl TryFrom<char> for i32 {
    type Err = NoError;

    open spec fn try_from_spec(src: char) -> Result<i32, NoError> {
        code_point::<i32>(src)
    }

    fn try_from(src: char) -> (r: Result<i32, NoError>) {
        convert_from_char::<i32>(src)
    }
}

impl TryFrom<char> for i64 {
    type Err = NoError;

    open spec fn try_from_spec(src: char) -> Result<i64, NoError> {
        code_point::<i64>(src)
    }

    fn try_from(src: char) -> (r: Result<i64, NoError>) {
        convert_from_char::<i64>(src)
    }
}

impl TryFrom<char> for isize {
    type Err = NoError;

    open spec fn try_from_spec(src: char) -> Result<isize, NoError> {
        code_point::<isize>(src)
    }

    fn try_from(src: char) -> (r: Result<isize, NoError>) {
        convert_from_char::<isize>(src)
    }
}

impl TryFrom<char> for u32 {
    type Err = NoError;

    open spec fn try_from_spec(src: char) -> Result<u32, NoError> {
        code_point::<u32>(src)
    }

    fn try_from(src: char) -> (r: Result<u32, NoError>) {
        convert_from_char::<u32>(src)
    }
}

impl TryFrom<char> for u64 {
    type Err = NoError;

    open spec fn try_from_spec(src: char) -> Result<u64, NoError> {
        code_point::<u64>(src)
    }

    fn try_from(src: char) -> (r: Result<u64, NoError>) {
        convert_from_char::<u64>(src)
    }
}

impl TryFrom<char> for usize {
    type Err = NoError;

    open spec fn try_from_spec(src: char) -> Result<usize, NoError> {
        code_point::<usize>(src)
    }

    fn try_from(src: char) -> (r: Result<usize, NoError>) {
        convert_from_char::<usize>(src)
    }
}

impl TryFrom<char> for i8 {
    type Err = Overflow;

    open spec fn try_from_spec(src: char) -> Result<i8, Overflow> {
        code_point_or_overflow::<i8>(src)
    }

    fn try_from(src: char) -> (r: Result<i8, Overflow>) {
        convert_from_char_or_overflow::<i8>(src)
    }
}

impl TryFrom<char> for i16 {
    type Err = Overflow;

    open spec fn try_from_spec(src: char) -> Result<i16, Overflow> {
        code_point_or_overflow::<i16>(src)
    }

    fn try_from(src: char) -> (r: Result<i16, Overflow>) {
        convert_from_char_or_overflow::<i16>(src)
    }
}

impl TryFrom<char> for u8 {
    type Err = Overflow;

    open spec fn try_from_spec(src: char) -> Result<u8, Overflow> {
        code_point_or_overflow::<u8>(src)
    }

    fn try_from(src: char) -> (r: Result<u8, Overflow>) {
        convert_from_char_or_overflow::<u8>(src)
    }
}

impl TryFrom<char> for u16 {
    type Err = Overflow;

    open spec fn try_from_spec(src: char) -> Result<u16, Overflow> {
        code_point_or_overflow::<u16>(src)
    }

    fn try_from(src: char) -> (r: Result<u16, Overflow>) {
        convert_from_char_or_overflow::<u16>(src)
    }
}

impl TryFrom<u8> for char {
    type Err = NoError;

    open spec fn try_from_spec(src: u8) -> Result<char, NoError> {
        Ok(src as char)
    }

    fn try_from(src: u8) -> (r: Result<char, NoError>) {
        Ok(src as char)
    }
}

impl TryFrom<i8> for char {
    type Err = Unrepresentable<i8>;

    open spec fn try_from_spec(src: i8) -> Result<char, Unrepresentable<i8>> {
        scalar_value::<i8>(src)
    }

    fn try_from(src: i8) -> (r: Result<char, Unrepresentable<i8>>) {
        convert_to_char::<i8>(src)
    }
}

impl TryFrom<i16> for char {
    type Err = Unrepresentable<i16>;

    open spec fn try_from_spec(src: i16) -> Result<char, Unrepresentable<i16>> {
        scalar_value::<i16>(src)
    }

    fn try_from(src: i16) -> (r: Result<char, Unrepresentable<i16>>) {
        convert_to_char::<i16>(src)
    }
}

impl TryFrom<i32> for char {
    type Err = Unrepresentable<i32>;

    open spec fn try_from_spec(src: i32) -> Result<char, Unrepresentable<i32>> {
        scalar_value::<i32>(src)
    }

    fn try_from(src: i32) -> (r: Result<char, Unrepresentable<i32>>) {
        convert_to_char::<i32>(src)
    }
}

impl TryFrom<i64> for char {
    type Err = Unrepresentable<i64>;

    open spec fn try_from_spec(src: i64) -> Result<char, Unrepresentable<i64>> {
        scalar_value::<i64>(src)
    }

    fn try_from(src: i64) -> (r: Result<char, Unrepresentable<i64>>) {
        convert_to_char::<i64>(src)
    }
}

impl TryFrom<isize> for char {
    type Err = Unrepresentable<isize>;

    open spec fn try_from_spec(src: isize) -> Result<char, Unrepresentable<isize>> {
        scalar_value::<isize>(src)
    }

    fn try_from(src: isize) -> (r: Result<char, Unrepresentable<isize>>) {
        convert_to_char::<isize>(src)
    }
}

impl TryFrom<u16> for char {
    type Err = Unrepresentable<u16>;

    open spec fn try_from_spec(src: u16) -> Result<char, Unrepresentable<u16>> {
        scalar_value::<u16>(src)
    }

    fn try_from(src: u16) -> (r: Result<char, Unrepresentable<u16>>) {
        convert_to_char::<u16>(src)
    }
}

impl TryFrom<u32> for char {
    type Err = Unrepresentable<u32>;

    open spec fn try_from_spec(src: u32) -> Result<char, Unrepresentable<u32>> {
        scalar_value::<u32>(src)
    }

    fn try_from(src: u32) -> (r: Result<char, Unrepresentable<u32>>) {
        convert_to_char::<u32>(src)
    }
}

impl TryFrom<u64> for char {
    type Err = Unrepresentable<u64>;

    open spec fn try_from_spec(src: u64) -> Result<char, Unrepresentable<u64>> {
        scalar_value::<u64>(src)
    }

    fn try_from(src: u64) -> (r: Result<char, Unrepresentable<u64>>) {
        convert_to_char::<u64>(src)
    }
}

impl TryFrom<usize> for char {
    type Err = Unrepresentable<usize>;

    open spec fn try_from_spec(src: usize) -> Result<char, Unrepresentable<usize>> {
        scalar_value::<usize>(src)
    }

    fn try_from(src: usize) -> (r: Result<char, Unrepresentable<usize>>) {
        convert_to_char::<usize>(src)
    }
}

} // verus!
