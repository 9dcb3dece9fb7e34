//! The rule tables: for each pair of types, which conversions exist, which
//! error type they report, and which rule decides.
//!
//! For each pair the rule is the one with the narrowest error type that is
//! sound for the pair; Verus checks that it is sound where the rule is
//! called.  For `isize` and `usize` this is the narrowest that is sound
//! whether the platform's pointers have 32 or 64 bits.

mod float_to_int;
mod from_i16;
mod from_i32;
mod from_i64;
mod from_i8;
mod from_isize;
mod from_u16;
mod from_u32;
mod from_u64;
mod from_u8;
mod from_usize;
mod int_to_float;
mod lang_char;
mod lang_floats;
