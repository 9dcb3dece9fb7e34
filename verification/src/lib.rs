//! Conversion traits with more specific semantics than those provided by `as`
//! or `From`/`Into`, with every conversion's contract proved.
//!
//! `From`/`Into` say nothing about the *kind* of conversion they implement, and
//! they must succeed or panic.  The traits here are specific about what is
//! allowed, and each has an associated error type that names exactly the ways
//! in which the conversion at hand can fail:
//!
//! - [`ValueFrom`]/[`ValueInto`]: exact, value-preserving conversions.
//! - [`ApproxFrom`]/[`ApproxInto`]: approximate conversions, with a selectable
//!   approximation scheme (see [`ApproxScheme`]).
//! - [`TryFrom`]/[`TryInto`]: general, potentially failing conversions.
//!
//! Each `*From` trait pairs its method with a specification function of the
//! same name and the suffix `_spec`, and the method returns exactly what that
//! function says.  Every type converts to itself without error, and a `*From`
//! implementation implies the matching `*Into`.
//!
//! Conversions are provided between the integer types, between integers and
//! `char`, and between the integer types and the floating point formats of
//! [`float`], which are held by their IEEE 754 encoding.  The rules behind
//! them are written once, generically, and stated and proved there:
//!
//! - [`integer`]: exact and wrapping conversion between integer types;
//! - [`chars`]: characters and their code points;
//! - [`float`]: floating point numbers to and from integers, and from one
//!   format to the other;
//! - [`listed`]: conversion into a domain given by the list of its values.
//!
//! In general, `ValueFrom` conversions exist for all pairs except for floating
//! point to integer (such a conversion is unlikely to succeed *exactly*) and
//! double to single precision (for the same reason).  `ApproxFrom` conversions
//! with the `DefaultApprox` scheme exist between all pairs, and with the
//! `Wrapping` scheme between integers.
//!
//! # Errors
//!
//! Conversions use whichever error type of [`errors`] most *narrowly* defines
//! the failures that can occur:
//!
//! - `ValueFrom<u8> for u16` cannot possibly fail, so it uses `NoError`;
//! - `ValueFrom<i8> for u16` can *only* underflow, so it uses `Underflow`;
//! - `ValueFrom<i32> for u16` can underflow *or* overflow, hence `RangeError`;
//! - `ApproxFrom<F32> for u16` can underflow, overflow, or meet what is not a
//!   number: `FloatError` covers those three cases.
//!
//! Every error type widens into each more general one by `From`, and all of
//! them into `GeneralError`.  For `isize` and `usize` the error type is the
//! narrowest that is right whether pointers have 32 or 64 bits.
//!
//! These extension methods help with common cases:
//!
//! - [`ApproxWith::approx`] approximates with the `DefaultApprox` scheme.
//! - [`ApproxWith::approx_with`] approximates with a named scheme.
//! - `errors::UnwrapOk::unwrap_ok` unwraps a conversion that cannot fail.
//! - `errors::UnwrapOrInf::unwrap_or_inf` saturates to ±∞ on failure.
//! - `errors::UnwrapOrInvalid::unwrap_or_invalid` substitutes the target
//!   type's "invalid" sentinel value on failure.
//! - `errors::UnwrapOrSaturate::unwrap_or_saturate` saturates to the maximum
//!   or minimum value of the target type on failure.

use vstd::prelude::*;

pub mod chars;
pub mod errors;
pub mod float;
pub mod integer;
pub mod listed;
pub mod misc;

mod impls;

pub use errors::{
    FloatError, GeneralError, NoError, Overflow, RangeError, Underflow, Unrepresentable, UnwrapOk,
    UnwrapOrInf, UnwrapOrInvalid, UnwrapOrSaturate,
};

verus! {

/// An approximation scheme: the policy by which an approximate conversion
/// turns its source into a value of the destination's kind.
pub trait ApproxScheme {

}

/// The "default" approximation scheme.  This scheme does whatever would
/// generally be expected of a lossy conversion, assuming no additional
/// context or instruction is given.
///
/// This is a marker: it has no values.
pub enum DefaultApprox {
    Marker(core::convert::Infallible),
}

impl ApproxScheme for DefaultApprox {

}

/// This scheme converts a value by "wrapping" it into a narrower range: rather
/// than preserving the most significant bits of a value, it preserves the
/// *least* significant bits.
///
/// This is a marker: it has no values.
pub enum Wrapping {
    Marker(core::convert::Infallible),
}

impl ApproxScheme for Wrapping {

}

/// A conversion that is permitted to approximate the result, but *not* to wrap
/// or saturate the result to fit into the destination type's representable
/// range (unless the scheme says so).
///
/// The conversion has two logical steps.  The approximation step turns the
/// input into an approximately equivalent value of the destination's kind,
/// without regard to the destination's range: rounding a fraction away, say.
/// The representation step rewrites that value in the destination type, and
/// may not change it: if the approximated value is not representable, the
/// conversion fails.
pub trait ApproxFrom<Src, Scheme = DefaultApprox>: Sized where Scheme: ApproxScheme {
    /// The error type produced by a failed conversion.
    type Err;

    /// What `approx_from` returns.
    spec fn approx_from_spec(src: Src) -> Result<Self, Self::Err>;

    /// Convert the given value into an approximately equivalent
    /// representation.
    fn approx_from(src: Src) -> (r: Result<Self, Self::Err>)
        ensures
            r == Self::approx_from_spec(src),
    ;
}

impl<Src, Scheme> ApproxFrom<Src, Scheme> for Src where Scheme: ApproxScheme {
    type Err = NoError;

    open spec fn approx_from_spec(src: Src) -> Result<Src, NoError> {
        Ok(src)
    }

    fn approx_from(src: Src) -> (r: Result<Src, NoError>) {
        Ok(src)
    }
}

/// The dual of `ApproxFrom`; see that trait for information.
pub trait ApproxInto<Dst, Scheme = DefaultApprox> where Scheme: ApproxScheme {
    /// The error type produced by a failed conversion.
    type Err;

    /// What `approx_into` returns.
    spec fn approx_into_spec(self) -> Result<Dst, Self::Err>;

    /// Convert the subject into an approximately equivalent representation.
    fn approx_into(self) -> (r: Result<Dst, Self::Err>)
        ensures
            r == self.approx_into_spec(),
    ;
}

impl<Dst, Src, Scheme> ApproxInto<Dst, Scheme> for Src where
    Dst: ApproxFrom<Src, Scheme>,
    Scheme: ApproxScheme,
 {
    type Err = Dst::Err;

    open spec fn approx_into_spec(self) -> Result<Dst, Dst::Err> {
        Dst::approx_from_spec(self)
    }

    fn approx_into(self) -> (r: Result<Dst, Dst::Err>) {
        Dst::approx_from(self)
    }
}

/// Extension methods that name the scheme of an approximation at the call,
/// where `approx_into` alone could not be resolved.  Implemented for all
/// types.
pub trait ApproxWith<Dst> {
    /// Approximate the subject with the default scheme.
    fn approx(self) -> (r: Result<Dst, Self::Err>) where Self: Sized + ApproxInto<Dst>
        ensures
            r == ApproxInto::<Dst, DefaultApprox>::approx_into_spec(self),
    {
        self.approx_into()
    }

    /// Approximate the subject with a specific scheme.
    fn approx_with<Scheme>(self) -> (r: Result<Dst, Self::Err>) where
        Self: Sized + ApproxInto<Dst, Scheme>,
        Scheme: ApproxScheme,

        ensures
            r == ApproxInto::<Dst, Scheme>::approx_into_spec(self),
    {
        self.approx_into()
    }
}

impl<T, Dst> ApproxWith<Dst> for T {

}

/// A conversion between different semantic types which might fail.
///
/// Typically, this is for values whose ranges or representations only
/// partially overlap, so that failure is a reasonably expected outcome:
/// integers and characters, say.
pub trait TryFrom<Src>: Sized {
    /// The error type produced by a failed conversion.
    type Err;

    /// What `try_from` returns.
    spec fn try_from_spec(src: Src) -> Result<Self, Self::Err>;

    /// Convert the given value into the subject type.
    fn try_from(src: Src) -> (r: Result<Self, Self::Err>)
        ensures
            r == Self::try_from_spec(src),
    ;
}

impl<Src> TryFrom<Src> for Src {
    type Err = NoError;

    open spec fn try_from_spec(src: Src) -> Result<Src, NoError> {
        Ok(src)
    }

    fn try_from(src: Src) -> (r: Result<Src, NoError>) {
        Ok(src)
    }
}

/// The dual of `TryFrom`; see that trait for information.
pub trait TryInto<Dst> {
    /// The error type produced by a failed conversion.
    type Err;

    /// What `try_into` returns.
    spec fn try_into_spec(self) -> Result<Dst, Self::Err>;

    /// Convert the subject into the destination type.
    fn try_into(self) -> (r: Result<Dst, Self::Err>)
        ensures
            r == self.try_into_spec(),
    ;
}

impl<Src, Dst> TryInto<Dst> for Src where Dst: TryFrom<Src> {
    type Err = Dst::Err;

    open spec fn try_into_spec(self) -> Result<Dst, Dst::Err> {
        Dst::try_from_spec(self)
    }

    fn try_into(self) -> (r: Result<Dst, Dst::Err>) {
        Dst::try_from(self)
    }
}

/// An exact, value-preserving conversion.
///
/// Implementations should be reflexive, associative and commutative (in the
/// absence of conversion errors): every cycle of `ValueFrom` conversions
/// either brings a value back exactly, or produces an error.
pub trait ValueFrom<Src>: Sized {
    /// The error type produced by a failed conversion.
    type Err;

    /// What `value_from` returns.
    spec fn value_from_spec(src: Src) -> Result<Self, Self::Err>;

    /// Convert the given value into an exactly equivalent representation.
    fn value_from(src: Src) -> (r: Result<Self, Self::Err>)
        ensures
            r == Self::value_from_spec(src),
    ;
}

impl<Src> ValueFrom<Src> for Src {
    type Err = NoError;

    open spec fn value_from_spec(src: Src) -> Result<Src, NoError> {
        Ok(src)
    }

    fn value_from(src: Src) -> (r: Result<Src, NoError>) {
        Ok(src)
    }
}

/// The dual of `ValueFrom`; see that trait for information.
pub trait ValueInto<Dst> {
    /// The error type produced by a failed conversion.
    type Err;

    /// What `value_into` returns.
    spec fn value_into_spec(self) -> Result<Dst, Self::Err>;

    /// Convert the subject into an exactly equivalent representation.
    fn value_into(self) -> (r: Result<Dst, Self::Err>)
        ensures
            r == self.value_into_spec(),
    ;
}

impl<Src, Dst> ValueInto<Dst> for Src where Dst: ValueFrom<Src> {
    type Err = Dst::Err;

    open spec fn value_into_spec(self) -> Result<Dst, Dst::Err> {
        Dst::value_from_spec(self)
    }

    fn value_into(self) -> (r: Result<Dst, Dst::Err>) {
        Dst::value_from(self)
    }
}

/// Every type converts to itself, under each of the three traits and under
/// every approximation scheme: the conversion succeeds and returns its input
/// unchanged.
pub proof fn lemma_reflexive<T, Scheme: ApproxScheme>(src: T)
    ensures
        <T as ValueFrom<T>>::value_from_spec(src) == Ok::<T, NoError>(src),
        <T as ApproxFrom<T, Scheme>>::approx_from_spec(src) == Ok::<T, NoError>(src),
        <T as TryFrom<T>>::try_from_spec(src) == Ok::<T, NoError>(src),
        <T as ValueInto<T>>::value_into_spec(src) == Ok::<T, NoError>(src),
        <T as ApproxInto<T, Scheme>>::approx_into_spec(src) == Ok::<T, NoError>(src),
        <T as TryInto<T>>::try_into_spec(src) == Ok::<T, NoError>(src),
{
}

/// Each `*Into` conversion is the `*From` conversion of the destination.
pub proof fn lemma_into_is_from<Src, Dst, Scheme: ApproxScheme>(src: Src) where
    Dst: ValueFrom<Src> + ApproxFrom<Src, Scheme> + TryFrom<Src>,

    ensures
        <Src as ValueInto<Dst>>::value_into_spec(src) == <Dst as ValueFrom<Src>>::value_from_spec(
            src,
        ),
        <Src as ApproxInto<Dst, Scheme>>::approx_into_spec(src) == <Dst as ApproxFrom<
            Src,
            Scheme,
        >>::approx_from_spec(src),
        <Src as TryInto<Dst>>::try_into_spec(src) == <Dst as TryFrom<Src>>::try_from_spec(src),
{
}

/// A conversion of a value to its own type is a link that changes nothing in
/// a chain of exact conversions: by way of the source type, or of the
/// destination type, `a` converts as it does directly.
pub proof fn lemma_value_from_chain_through_itself<A, C: ValueFrom<A>>(a: A)
    ensures
        <A as ValueFrom<A>>::value_from_spec(a) == Ok::<A, NoError>(a),
        <C as ValueFrom<A>>::value_from_spec(a) matches Ok(c) ==> <C as ValueFrom<
            C,
        >>::value_from_spec(c) == Ok::<C, NoError>(c),
{
}

} // verus!
