//! Random choices, made by the `rand` crate with its thread-local generator.

use rand::seq::IndexedRandom;
use rand::seq::IteratorRandom;
use vstd::prelude::*;

verus! {

/// Calls `rand::seq::IndexedRandom::choose` on the slice of `items`, with the
/// generator from `rand::rng`. The crate's source returns `None` exactly when
/// the slice is empty and otherwise one of its elements (drawn uniformly);
/// which one is left unsaid here, since it rests on chance.
#[verifier::external_body]
pub(crate) fn choose_from_slice(items: &Vec<usize>) -> (r: Option<usize>)
    ensures
        r is Some <==> items@.len() > 0,
        r matches Some(v) ==> items@.contains(v),
{
    items.as_slice().choose(&mut rand::rng()).copied()
}

/// Calls `rand::seq::IteratorRandom::choose` on an iterator over `items`, with
/// the generator from `rand::rng`. For an iterator whose length is known, the
/// crate's source returns `None` exactly when it is empty and otherwise the
/// element at a random position; which one is left unsaid here.
#[verifier::external_body]
pub(crate) fn choose_from_iter(items: &Vec<usize>) -> (r: Option<usize>)
    ensures
        r is Some <==> items@.len() > 0,
        r matches Some(v) ==> items@.contains(v),
{
    items.iter().choose(&mut rand::rng()).copied()
}

} // verus!
