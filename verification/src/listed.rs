//! Conversion into a closed, finite domain that is given by the list of its
//! valid integer values: the discriminants of an enumeration, say.
//!
//! The conversion succeeds only for a value in the list, and tells where in
//! the list it stands; the caller maps that place to the variant it is the
//! value of.

use crate::errors::Unrepresentable;
use crate::integer::Integer;
use vstd::prelude::*;

verus! {

/// The first place of `src` in `valid`, if it has one; else `src`, as
/// unrepresentable.
pub open spec fn listed<S: Integer>(src: S, valid: Seq<S>) -> Result<usize, Unrepresentable<S>> {
    if exists|i: int| 0 <= i < valid.len() && valid[i] == src {
        Ok(first_place(src, valid, 0) as usize)
    } else {
        Err(Unrepresentable(src))
    }
}

/// The first place of `src` in `valid` from `from` on, or the length of
/// `valid` if there is none.
pub open spec fn first_place<S: Integer>(src: S, valid: Seq<S>, from: int) -> int
    decreases valid.len() - from,
{
    if from < 0 || from >= valid.len() {
        valid.len() as int
    } else if valid[from] == src {
        from
    } else {
        first_place(src, valid, from + 1)
    }
}

/// The first place of a value is a place of the list where the value stands,
/// and the value stands at no place before it.
pub proof fn lemma_first_place<S: Integer>(src: S, valid: Seq<S>, from: int)
    requires
        0 <= from <= valid.len(),
    ensures
        from <= first_place(src, valid, from) <= valid.len(),
        first_place(src, valid, from) < valid.len() ==> valid[first_place(src, valid, from)]
            == src,
        forall|j: int| from <= j < first_place(src, valid, from) ==> valid[j] != src,
    decreases valid.len() - from,
{
    if from < valid.len() && valid[from] != src {
        lemma_first_place(src, valid, from + 1);
    }
}

/// Converts an integer into the domain whose valid values are listed: returns
/// the first place of `src` in `valid`, and fails for a value that is not in
/// the list.
pub fn try_from_listed<S: Integer>(src: S, valid: &[S]) -> (r: Result<usize, Unrepresentable<S>>)
    ensures
        r == listed(src, valid@),
        r matches Ok(i) ==> i < valid.len() && valid[i as int] == src,
        r is Err <==> forall|j: int| 0 <= j < valid.len() ==> valid[j] != src,
{
    proof {
        S::lemma_bounds();
        lemma_first_place(src, valid@, 0);
    }
    let wanted = src.to_wide();
    let mut i: usize = 0;
    while i < valid.len()
        invariant
            0 <= i <= valid.len(),
            wanted == src.value(),
            forall|j: int| 0 <= j < i ==> valid[j] != src,
            first_place(src, valid@, 0) == first_place(src, valid@, i as int),
            forall|x: S| S::from_int(#[trigger] x.value()) == x,
        decreases valid.len() - i,
    {
        if valid[i].to_wide() == wanted {
            assert(valid[i as int] == src);
            return Ok(i);
        }
        i = i + 1;
    }
    Err(Unrepresentable(src))
}

} // verus!
