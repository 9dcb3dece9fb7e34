//! The error types that a failed conversion can produce, the widening of a
//! narrow error into a more general one, and the helpers that collapse a
//! conversion's `Result` into a plain value.
//!
//! The error types are ordered by how much they can report:
//!
//! ```text
//! NoError  <  Underflow, Overflow  <  RangeError  <  FloatError  <  GeneralError
//!                                       Unrepresentable<T>       <  GeneralError
//! ```
//!
//! Every step up is a `From` implementation, and every path between two types
//! gives the same image (see the `lemma_widen_*` functions).

use crate::misc::{InvalidSentinel, Saturated, SignedInfinity};
use vstd::prelude::*;
use vstd::std_specs::convert::FromSpec;

verus! {

/// A general error enumeration that subsumes all other conversion errors.
///
/// This exists primarily as a "catch-all" for reliably unifying various
/// different kinds of conversion errors.
#[derive(Copy, Clone, Eq, PartialEq, Ord, PartialOrd, Debug, Structural)]
pub enum GeneralError {
    /// Input underflowed the target type.
    Underflow,
    /// Input overflowed the target type.
    Overflow,
    /// Input was not representable in the target type.
    Unrepresentable,
}

/// Indicates that it is not possible for the conversion to fail.
///
/// No value of this type exists: it has no constructor, and its type
/// invariant is unsatisfiable, so code that holds one is provably unreachable.
#[derive(Copy, Clone, Eq, PartialEq, Ord, PartialOrd, Debug)]
pub struct NoError {
    never: core::convert::Infallible,
}

/// Indicates that the conversion failed because the value was not
/// representable.  Carries the rejected value.
#[derive(Copy, Clone, Eq, PartialEq, Ord, PartialOrd, Debug)]
pub struct Unrepresentable<T>(pub T);

/// Indicates that the conversion failed due to an underflow.
#[derive(Copy, Clone, Eq, PartialEq, Ord, PartialOrd, Debug, Structural)]
pub struct Underflow;

/// Indicates that the conversion failed due to an overflow.
#[derive(Copy, Clone, Eq, PartialEq, Ord, PartialOrd, Debug, Structural)]
pub struct Overflow;

/// Indicates that a conversion from a floating point type failed.
#[derive(Copy, Clone, Eq, PartialEq, Ord, PartialOrd, Debug, Structural)]
pub enum FloatError {
    /// Input underflowed the target type.
    Underflow,
    /// Input overflowed the target type.
    Overflow,
    /// Input was not-a-number, which the target type could not represent.
    NotANumber,
}

/// Indicates that a conversion failed due to a range error.
#[derive(Copy, Clone, Eq, PartialEq, Ord, PartialOrd, Debug, Structural)]
pub enum RangeError {
    /// Input underflowed the target type.
    Underflow,
    /// Input overflowed the target type.
    Overflow,
}

impl NoError {
    /// Holds of no value.
    #[verifier::type_invariant]
    closed spec fn uninhabited(self) -> bool {
        false
    }

    /// The value of the uninhabited type of the standard library that stands
    /// behind this one.  A `match` without arms on it tells the compiler that
    /// the code at hand cannot be reached.
    pub fn never(self) -> core::convert::Infallible {
        self.never
    }

    /// There is nothing to describe: this cannot be reached.
    pub fn description(&self) -> (text: &'static str) {
        proof {
            use_type_invariant(self);
        }
        unreached()
    }
}

impl GeneralError {
    /// The text of `description`.
    pub open spec fn description_spec(self) -> Seq<char> {
        match self {
            GeneralError::Underflow => "conversion resulted in underflow"@,
            GeneralError::Overflow => "conversion resulted in overflow"@,
            GeneralError::Unrepresentable => "could not convert unrepresentable value"@,
        }
    }

    /// A short description of the failure.
    pub fn description(&self) -> (text: &'static str)
        ensures
            text@ == self.description_spec(),
    {
        match self {
            GeneralError::Underflow => "conversion resulted in underflow",
            GeneralError::Overflow => "conversion resulted in overflow",
            GeneralError::Unrepresentable => "could not convert unrepresentable value",
        }
    }
}

impl<T> Unrepresentable<T> {
    /// The text of `description`.
    pub open spec fn description_spec(self) -> Seq<char> {
        "could not convert unrepresentable value"@
    }

    /// A short description of the failure.
    pub fn description(&self) -> (text: &'static str)
        ensures
            text@ == self.description_spec(),
    {
        "could not convert unrepresentable value"
    }
}

impl Underflow {
    /// The text of `description`.
    pub open spec fn description_spec(self) -> Seq<char> {
        "conversion resulted in underflow"@
    }

    /// A short description of the failure.
    pub fn description(&self) -> (text: &'static str)
        ensures
            text@ == self.description_spec(),
    {
        "conversion resulted in underflow"
    }
}

impl Overflow {
    /// The text of `description`.
    pub open spec fn description_spec(self) -> Seq<char> {
        "conversion resulted in overflow"@
    }

    /// A short description of the failure.
    pub fn description(&self) -> (text: &'static str)
        ensures
            text@ == self.description_spec(),
    {
        "conversion resulted in overflow"
    }
}

impl FloatError {
    /// The text of `description`.
    pub open spec fn description_spec(self) -> Seq<char> {
        match self {
            FloatError::Underflow => "conversion resulted in underflow"@,
            FloatError::Overflow => "conversion resulted in overflow"@,
            FloatError::NotANumber => "conversion target does not support not-a-number"@,
        }
    }

    /// A short description of the failure.
    pub fn description(&self) -> (text: &'static str)
        ensures
            text@ == self.description_spec(),
    {
        match self {
            FloatError::Underflow => "conversion resulted in underflow",
            FloatError::Overflow => "conversion resulted in overflow",
            FloatError::NotANumber => "conversion target does not support not-a-number",
        }
    }
}

impl RangeError {
    /// The text of `description`.
    pub open spec fn description_spec(self) -> Seq<char> {
        match self {
            RangeError::Underflow => "conversion resulted in underflow"@,
            RangeError::Overflow => "conversion resulted in overflow"@,
        }
    }

    /// A short description of the failure.
    pub fn description(&self) -> (text: &'static str)
        ensures
            text@ == self.description_spec(),
    {
        match self {
            RangeError::Underflow => "conversion resulted in underflow",
            RangeError::Overflow => "conversion resulted in overflow",
        }
    }
}

// Widening.  A narrow error turns into each more general one through `From`;
// `from_spec` says which value comes out.  From `NoError` there is nothing to
// turn: such a call cannot be reached, which the type invariant of `NoError`
// proves, and `from_spec` is then of no account.

impl From<NoError> for Underflow {
    fn from(e: NoError) -> (wide: Underflow) {
        proof {
            use_type_invariant(&e);
        }
        Underflow
    }
}

impl vstd::std_specs::convert::FromSpecImpl<NoError> for Underflow {
    open spec fn obeys_from_spec() -> bool {
        true
    }

    open spec fn from_spec(e: NoError) -> Underflow {
        Underflow
    }
}

impl From<NoError> for Overflow {
    fn from(e: NoError) -> (wide: Overflow) {
        proof {
            use_type_invariant(&e);
        }
        Overflow
    }
}

impl vstd::std_specs::convert::FromSpecImpl<NoError> for Overflow {
    open spec fn obeys_from_spec() -> bool {
        true
    }

    open spec fn from_spec(e: NoError) -> Overflow {
        Overflow
    }
}

impl From<NoError> for RangeError {
    fn from(e: NoError) -> (wide: RangeError) {
        proof {
            use_type_invariant(&e);
        }
        RangeError::Underflow
    }
}

impl vstd::std_specs::convert::FromSpecImpl<NoError> for RangeError {
    open spec fn obeys_from_spec() -> bool {
        true
    }

    open spec fn from_spec(e: NoError) -> RangeError {
        RangeError::Underflow
    }
}

impl From<NoError> for FloatError {
    fn from(e: NoError) -> (wide: FloatError) {
        proof {
            use_type_invariant(&e);
        }
        FloatError::Underflow
    }
}

impl vstd::std_specs::convert::FromSpecImpl<NoError> for FloatError {
    open spec fn obeys_from_spec() -> bool {
        true
    }

    open spec fn from_spec(e: NoError) -> FloatError {
        FloatError::Underflow
    }
}

impl From<NoError> for GeneralError {
    fn from(e: NoError) -> (wide: GeneralError) {
        proof {
            use_type_invariant(&e);
        }
        GeneralError::Underflow
    }
}

impl vstd::std_specs::convert::FromSpecImpl<NoError> for GeneralError {
    open spec fn obeys_from_spec() -> bool {
        true
    }

    open spec fn from_spec(e: NoError) -> GeneralError {
        GeneralError::Underflow
    }
}

impl From<Underflow> for RangeError {
    fn from(_e: Underflow) -> (wide: RangeError) {
        RangeError::Underflow
    }
}

impl vstd::std_specs::convert::FromSpecImpl<Underflow> for RangeError {
    open spec fn obeys_from_spec() -> bool {
        true
    }

    open spec fn from_spec(_e: Underflow) -> RangeError {
        RangeError::Underflow
    }
}

impl From<Overflow> for RangeError {
    fn from(_e: Overflow) -> (wide: RangeError) {
        RangeError::Overflow
    }
}

impl vstd::std_specs::convert::FromSpecImpl<Overflow> for RangeError {
    open spec fn obeys_from_spec() -> bool {
        true
    }

    open spec fn from_spec(_e: Overflow) -> RangeError {
        RangeError::Overflow
    }
}

impl From<Underflow> for FloatError {
    fn from(_e: Underflow) -> (wide: FloatError) {
        FloatError::Underflow
    }
}

impl vstd::std_specs::convert::FromSpecImpl<Underflow> for FloatError {
    open spec fn obeys_from_spec() -> bool {
        true
    }

    open spec fn from_spec(_e: Underflow) -> FloatError {
        FloatError::Underflow
    }
}

impl From<Overflow> for FloatError {
    fn from(_e: Overflow) -> (wide: FloatError) {
        FloatError::Overflow
    }
}

impl vstd::std_specs::convert::FromSpecImpl<Overflow> for FloatError {
    open spec fn obeys_from_spec() -> bool {
        true
    }

    open spec fn from_spec(_e: Overflow) -> FloatError {
        FloatError::Overflow
    }
}

impl From<RangeError> for FloatError {
    fn from(e: RangeError) -> (wide: FloatError) {
        match e {
            RangeError::Underflow => FloatError::Underflow,
            RangeError::Overflow => FloatError::Overflow,
        }
    }
}

impl vstd::std_specs::convert::FromSpecImpl<RangeError> for FloatError {
    open spec fn obeys_from_spec() -> bool {
        true
    }

    open spec fn from_spec(e: RangeError) -> FloatError {
        match e {
            RangeError::Underflow => FloatError::Underflow,
            RangeError::Overflow => FloatError::Overflow,
        }
    }
}

impl<T> From<Unrepresentable<T>> for GeneralError {
    fn from(_e: Unrepresentable<T>) -> (wide: GeneralError) {
        GeneralError::Unrepresentable
    }
}

impl<T> vstd::std_specs::convert::FromSpecImpl<Unrepresentable<T>> for GeneralError {
    open spec fn obeys_from_spec() -> bool {
        true
    }

    open spec fn from_spec(_e: Unrepresentable<T>) -> GeneralError {
        GeneralError::Unrepresentable
    }
}

impl From<Underflow> for GeneralError {
    fn from(_e: Underflow) -> (wide: GeneralError) {
        GeneralError::Underflow
    }
}

impl vstd::std_specs::convert::FromSpecImpl<Underflow> for GeneralError {
    open spec fn obeys_from_spec() -> bool {
        true
    }

    open spec fn from_spec(_e: Underflow) -> GeneralError {
        GeneralError::Underflow
    }
}

impl From<Overflow> for GeneralError {
    fn from(_e: Overflow) -> (wide: GeneralError) {
        GeneralError::Overflow
    }
}

impl vstd::std_specs::convert::FromSpecImpl<Overflow> for GeneralError {
    open spec fn obeys_from_spec() -> bool {
        true
    }

    open spec fn from_spec(_e: Overflow) -> GeneralError {
        GeneralError::Overflow
    }
}

impl From<RangeError> for GeneralError {
    fn from(e: RangeError) -> (wide: GeneralError) {
        match e {
            RangeError::Underflow => GeneralError::Underflow,
            RangeError::Overflow => GeneralError::Overflow,
        }
    }
}

impl vstd::std_specs::convert::FromSpecImpl<RangeError> for GeneralError {
    open spec fn obeys_from_spec() -> bool {
        true
    }

    open spec fn from_spec(e: RangeError) -> GeneralError {
        match e {
            RangeError::Underflow => GeneralError::Underflow,
            RangeError::Overflow => GeneralError::Overflow,
        }
    }
}

impl From<FloatError> for GeneralError {
    fn from(e: FloatError) -> (wide: GeneralError) {
        match e {
            FloatError::Underflow => GeneralError::Underflow,
            FloatError::Overflow => GeneralError::Overflow,
            FloatError::NotANumber => GeneralError::Unrepresentable,
        }
    }
}

impl vstd::std_specs::convert::FromSpecImpl<FloatError> for GeneralError {
    open spec fn obeys_from_spec() -> bool {
        true
    }

    open spec fn from_spec(e: FloatError) -> GeneralError {
        match e {
            FloatError::Underflow => GeneralError::Underflow,
            FloatError::Overflow => GeneralError::Overflow,
            FloatError::NotANumber => GeneralError::Unrepresentable,
        }
    }
}

/// Widening an underflow gives the same error whichever way it goes up:
/// directly, or through any of the types in between.
pub proof fn lemma_widen_underflow(e: Underflow)
    ensures
        FloatError::from_spec(RangeError::from_spec(e)) == FloatError::from_spec(e),
        GeneralError::from_spec(RangeError::from_spec(e)) == GeneralError::from_spec(e),
        GeneralError::from_spec(FloatError::from_spec(e)) == GeneralError::from_spec(e),
        GeneralError::from_spec(FloatError::from_spec(RangeError::from_spec(e)))
            == GeneralError::from_spec(e),
{
}

/// Widening an overflow gives the same error whichever way it goes up:
/// directly, or through any of the types in between.
pub proof fn lemma_widen_overflow(e: Overflow)
    ensures
        FloatError::from_spec(RangeError::from_spec(e)) == FloatError::from_spec(e),
        GeneralError::from_spec(RangeError::from_spec(e)) == GeneralError::from_spec(e),
        GeneralError::from_spec(FloatError::from_spec(e)) == GeneralError::from_spec(e),
        GeneralError::from_spec(FloatError::from_spec(RangeError::from_spec(e)))
            == GeneralError::from_spec(e),
{
}

/// Widening a range error into a general error directly, or through
/// `FloatError`, gives the same error.
pub proof fn lemma_widen_range(e: RangeError)
    ensures
        GeneralError::from_spec(FloatError::from_spec(e)) == GeneralError::from_spec(e),
{
}

/// Widening loses nothing that the wider type can tell apart: two range
/// errors, or two float errors, with the same image are the same error, and
/// an underflow is never taken for an overflow.
pub proof fn lemma_widen_injective(a: RangeError, b: RangeError, c: FloatError, d: FloatError)
    ensures
        FloatError::from_spec(a) == FloatError::from_spec(b) ==> a == b,
        GeneralError::from_spec(a) == GeneralError::from_spec(b) ==> a == b,
        GeneralError::from_spec(c) == GeneralError::from_spec(d) ==> c == d,
        RangeError::from_spec(Underflow) != RangeError::from_spec(Overflow),
        FloatError::from_spec(Underflow) != FloatError::from_spec(Overflow),
        GeneralError::from_spec(Underflow) != GeneralError::from_spec(Overflow),
{
}

// Unwrap helpers.

/// Safely unwrap a `Result` that cannot contain an error.
pub trait UnwrapOk<T> {
    /// What `unwrap_ok` returns.
    spec fn unwrap_ok_spec(self) -> T;

    /// Unwraps a `Result` without possibility of failing.
    ///
    /// Technically, this is not necessary; it is provided simply to make user
    /// code a little clearer.
    fn unwrap_ok(self) -> (v: T)
        ensures
            v == self.unwrap_ok_spec(),
    ;
}

/// Unwrap a conversion by saturating to infinity.
pub trait UnwrapOrInf {
    /// The result of unwrapping.
    type Output;

    /// What `unwrap_or_inf` returns.
    spec fn unwrap_or_inf_spec(self) -> Self::Output;

    /// Either unwraps the successfully converted value, or saturates to
    /// infinity in the "direction" of overflow/underflow.
    fn unwrap_or_inf(self) -> (v: Self::Output)
        ensures
            v == self.unwrap_or_inf_spec(),
    ;
}

/// Unwrap a conversion by replacing a failure with an invalid sentinel value.
pub trait UnwrapOrInvalid {
    /// The result of unwrapping.
    type Output;

    /// What `unwrap_or_invalid` returns.
    spec fn unwrap_or_invalid_spec(self) -> Self::Output;

    /// Either unwraps the successfully converted value, or returns the output
    /// type's invalid sentinel value.
    fn unwrap_or_invalid(self) -> (v: Self::Output)
        ensures
            v == self.unwrap_or_invalid_spec(),
    ;
}

/// Unwrap a conversion by saturating.
pub trait UnwrapOrSaturate {
    /// The result of unwrapping.
    type Output;

    /// What `unwrap_or_saturate` returns.
    spec fn unwrap_or_saturate_spec(self) -> Self::Output;

    /// Either unwraps the successfully converted value, or saturates in the
    /// "direction" of overflow/underflow.
    fn unwrap_or_saturate(self) -> (v: Self::Output)
        ensures
            v == self.unwrap_or_saturate_spec(),
    ;
}

/// The value that stands in for a conversion that failed with `e`, by
/// saturation: the least value on underflow, the greatest on overflow.
pub open spec fn saturated<T: Saturated>(e: RangeError) -> T {
    match e {
        RangeError::Underflow => T::saturated_min_spec(),
        RangeError::Overflow => T::saturated_max_spec(),
    }
}

/// The value that stands in for a conversion that failed with `e`, by
/// infinities: negative infinity on underflow, positive on overflow.
pub open spec fn infinite<T: SignedInfinity>(e: RangeError) -> T {
    match e {
        RangeError::Underflow => T::neg_infinity_spec(),
        RangeError::Overflow => T::pos_infinity_spec(),
    }
}

/// Returns the saturated value in the direction of `e`.
pub fn saturate<T: Saturated>(e: RangeError) -> (v: T)
    ensures
        v == saturated::<T>(e),
{
    match e {
        RangeError::Underflow => T::saturated_min(),
        RangeError::Overflow => T::saturated_max(),
    }
}

/// Returns the infinity in the direction of `e`.
pub fn infinity<T: SignedInfinity>(e: RangeError) -> (v: T)
    ensures
        v == infinite::<T>(e),
{
    match e {
        RangeError::Underflow => T::neg_infinity(),
        RangeError::Overflow => T::pos_infinity(),
    }
}

impl<T> UnwrapOk<T> for Result<T, NoError> {
    open spec fn unwrap_ok_spec(self) -> T {
        self->Ok_0
    }

    fn unwrap_ok(self) -> (v: T)
        ensures
            self == Ok::<T, NoError>(v),
    {
        match self {
            Ok(v) => v,
            Err(e) => {
                proof {
                    use_type_invariant(&e);
                }
                unreached()
            },
        }
    }
}

impl<T, E> UnwrapOrInvalid for Result<T, E> where T: InvalidSentinel {
    type Output = T;

    open spec fn unwrap_or_invalid_spec(self) -> T {
        match self {
            Ok(v) => v,
            Err(_) => T::invalid_sentinel_spec(),
        }
    }

    fn unwrap_or_invalid(self) -> (v: T) {
        match self {
            Ok(v) => v,
            Err(_) => T::invalid_sentinel(),
        }
    }
}

// Saturation is defined for the error types that widen into `RangeError`:
// the error is widened, and its direction picks the value.

impl<T> UnwrapOrSaturate for Result<T, RangeError> where T: Saturated {
    type Output = T;

    open spec fn unwrap_or_saturate_spec(self) -> T {
        match self {
            Ok(v) => v,
            Err(e) => saturated::<T>(e),
        }
    }

    fn unwrap_or_saturate(self) -> (v: T) {
        match self {
            Ok(v) => v,
            Err(e) => saturate::<T>(e),
        }
    }
}

impl<T> UnwrapOrSaturate for Result<T, Underflow> where T: Saturated {
    type Output = T;

    open spec fn unwrap_or_saturate_spec(self) -> T {
        match self {
            Ok(v) => v,
            Err(e) => saturated::<T>(RangeError::from_spec(e)),
        }
    }

    fn unwrap_or_saturate(self) -> (v: T) {
        match self {
            Ok(v) => v,
            Err(e) => saturate::<T>(RangeError::from(e)),
        }
    }
}

impl<T> UnwrapOrSaturate for Result<T, Overflow> where T: Saturated {
    type Output = T;

    open spec fn unwrap_or_saturate_spec(self) -> T {
        match self {
            Ok(v) => v,
            Err(e) => saturated::<T>(RangeError::from_spec(e)),
        }
    }

    fn unwrap_or_saturate(self) -> (v: T) {
        match self {
            Ok(v) => v,
            Err(e) => saturate::<T>(RangeError::from(e)),
        }
    }
}

impl<T> UnwrapOrSaturate for Result<T, NoError> where T: Saturated {
    type Output = T;

    open spec fn unwrap_or_saturate_spec(self) -> T {
        match self {
            Ok(v) => v,
            Err(e) => saturated::<T>(RangeError::from_spec(e)),
        }
    }

    fn unwrap_or_saturate(self) -> (v: T) {
        match self {
            Ok(v) => v,
            Err(e) => saturate::<T>(RangeError::from(e)),
        }
    }
}

impl<T> UnwrapOrInf for Result<T, RangeError> where T: SignedInfinity {
    type Output = T;

    open spec fn unwrap_or_inf_spec(self) -> T {
        match self {
            Ok(v) => v,
            Err(e) => infinite::<T>(e),
        }
    }

    fn unwrap_or_inf(self) -> (v: T) {
        match self {
            Ok(v) => v,
            Err(e) => infinity::<T>(e),
        }
    }
}

impl<T> UnwrapOrInf for Result<T, Underflow> where T: SignedInfinity {
    type Output = T;

    open spec fn unwrap_or_inf_spec(self) -> T {
        match self {
            Ok(v) => v,
            Err(e) => infinite::<T>(RangeError::from_spec(e)),
        }
    }

    fn unwrap_or_inf(self) -> (v: T) {
        match self {
            Ok(v) => v,
            Err(e) => infinity::<T>(RangeError::from(e)),
        }
    }
}

impl<T> UnwrapOrInf for Result<T, Overflow> where T: SignedInfinity {
    type Output = T;

    open spec fn unwrap_or_inf_spec(self) -> T {
        match self {
            Ok(v) => v,
            Err(e) => infinite::<T>(RangeError::from_spec(e)),
        }
    }

    fn unwrap_or_inf(self) -> (v: T) {
        match self {
            Ok(v) => v,
            Err(e) => infinity::<T>(RangeError::from(e)),
        }
    }
}

impl<T> UnwrapOrInf for Result<T, NoError> where T: SignedInfinity {
    type Output = T;

    open spec fn unwrap_or_inf_spec(self) -> T {
        match self {
            Ok(v) => v,
            Err(e) => infinite::<T>(RangeError::from_spec(e)),
        }
    }

    fn unwrap_or_inf(self) -> (v: T) {
        match self {
            Ok(v) => v,
            Err(e) => infinity::<T>(RangeError::from(e)),
        }
    }
}

/// `unwrap_or_saturate` returns the greatest value on overflow, the least on
/// underflow, and a converted value unchanged; and to unwrap what it returned
/// once more changes nothing.
pub proof fn lemma_unwrap_or_saturate<T: Saturated>(r: Result<T, RangeError>)
    ensures
        r == Err::<T, RangeError>(RangeError::Overflow) ==> r.unwrap_or_saturate_spec()
            == T::saturated_max_spec(),
        r == Err::<T, RangeError>(RangeError::Underflow) ==> r.unwrap_or_saturate_spec()
            == T::saturated_min_spec(),
        r matches Ok(v) ==> r.unwrap_or_saturate_spec() == v,
        Ok::<T, RangeError>(r.unwrap_or_saturate_spec()).unwrap_or_saturate_spec()
            == r.unwrap_or_saturate_spec(),
{
}

/// The narrower error types saturate as their widened form does.
pub proof fn lemma_unwrap_or_saturate_narrow<T: Saturated>(
    under: Result<T, Underflow>,
    over: Result<T, Overflow>,
)
    ensures
        under is Err ==> under.unwrap_or_saturate_spec() == T::saturated_min_spec(),
        under matches Ok(v) ==> under.unwrap_or_saturate_spec() == v,
        over is Err ==> over.unwrap_or_saturate_spec() == T::saturated_max_spec(),
        over matches Ok(v) ==> over.unwrap_or_saturate_spec() == v,
{
}

/// `unwrap_or_inf` returns positive infinity on overflow, negative infinity
/// on underflow, and a converted value unchanged; and to unwrap what it
/// returned once more changes nothing.
pub proof fn lemma_unwrap_or_inf<T: SignedInfinity>(r: Result<T, RangeError>)
    ensures
        r == Err::<T, RangeError>(RangeError::Overflow) ==> r.unwrap_or_inf_spec()
            == T::pos_infinity_spec(),
        r == Err::<T, RangeError>(RangeError::Underflow) ==> r.unwrap_or_inf_spec()
            == T::neg_infinity_spec(),
        r matches Ok(v) ==> r.unwrap_or_inf_spec() == v,
        Ok::<T, RangeError>(r.unwrap_or_inf_spec()).unwrap_or_inf_spec()
            == r.unwrap_or_inf_spec(),
{
}

/// `unwrap_or_invalid` returns the sentinel on any error, and a converted
/// value unchanged.
pub proof fn lemma_unwrap_or_invalid<T: InvalidSentinel, E>(r: Result<T, E>)
    ensures
        r is Err ==> r.unwrap_or_invalid_spec() == T::invalid_sentinel_spec(),
        r matches Ok(v) ==> r.unwrap_or_invalid_spec() == v,
{
}

} // verus!
