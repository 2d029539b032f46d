//! Calls into `rand`.

use vstd::prelude::*;
use rand::seq::SliceRandom;

verus! {

/// Calls `SliceRandom::choose` on `pool`, with the thread's random generator,
/// and copies the chosen byte out.
///
/// Trusted: an empty pool gives `None`, any other a byte that the pool holds.
/// Which byte is random, so two calls may differ.
#[verifier::external_body]
pub(crate) fn pick_one(pool: &[u8]) -> (picked: Option<u8>)
    ensures
        pool@.len() == 0 ==> picked is None,
        pool@.len() > 0 ==> picked is Some && pool@.contains(picked.unwrap()),
{
    pool.choose(&mut rand::thread_rng()).copied()
}

/// Calls `SliceRandom::shuffle` on `items`, with the thread's random generator.
///
/// Trusted: the items are the same as before, each as often as before. Their
/// order is random, so two calls may differ.
#[verifier::external_body]
pub(crate) fn shuffle(items: &mut Vec<u8>)
    ensures
        final(items)@.to_multiset() == old(items)@.to_multiset(),
{
    items.shuffle(&mut rand::thread_rng());
}

} // verus!
