//! Random choices, made by the `rand` crate. Nothing is known of a choice
//! but that it is one of those that were possible.

use vstd::prelude::*;
use rand::seq::{IteratorRandom, SliceRandom};
use rand::Rng;

verus! {

/// Draws a number with `rand::Rng::gen` on the thread's generator: any
/// number may come.
#[verifier::external_body]
pub(crate) fn random_u32() -> u32 {
    rand::thread_rng().gen::<u32>()
}

/// Picks one of the items with `rand::seq::SliceRandom::choose`: none where
/// there is none, else one of them.
#[verifier::external_body]
pub(crate) fn pick<T>(items: &Vec<T>) -> (chosen: Option<&T>)
    ensures
        chosen is Some <==> items@.len() > 0,
        chosen is Some ==> items@.contains(*chosen->0),
{
    items.choose(&mut rand::thread_rng())
}

/// Takes one of the items with `rand::seq::IteratorRandom::choose`: none
/// where there is none, else one of them.
#[verifier::external_body]
pub(crate) fn take_one<T>(items: Vec<T>) -> (chosen: Option<T>)
    ensures
        chosen is Some <==> items@.len() > 0,
        chosen is Some ==> items@.contains(chosen->0),
{
    items.into_iter().choose(&mut rand::thread_rng())
}

} // verus!
