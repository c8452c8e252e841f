//! Chance. The generator is the thread's own, which the system seeds; a system that cannot
//! seed it makes the first draw panic.

use rand::Rng;
use vstd::prelude::*;
use crate::player::IDsize;

verus! {

/// Picks a position in a list of `len` items with `rand::thread_rng().gen_range(0..len)`.
///
/// Claimed of `Rng::gen_range`: the result lies in the range. An empty range makes it panic,
/// so `len` is positive. Which position comes out is left to chance.
#[verifier::external_body]
pub(crate) fn random_index(len: usize) -> (index: usize)
    requires
        0 < len,
    ensures
        index < len,
{
    rand::thread_rng().gen_range(0..len)
}

/// Draws an id with `rand::thread_rng().gen_range(IDsize::MIN..=IDsize::MAX)`.
///
/// Nothing is claimed of the result: the range holds every id, and which one comes out is left
/// to chance.
#[verifier::external_body]
pub(crate) fn random_id() -> (id: IDsize) {
    rand::thread_rng().gen_range(IDsize::MIN..=IDsize::MAX)
}

} // verus!
