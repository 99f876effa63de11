//! Uniform random draws of indices from the thread-local generator.
//!
//! `uniform_draw(i, n)` records that `i` came out of a uniform draw over
//! `0..n`. Its body is closed: outside this module the only way to obtain it is
//! to call `random_index(n)`, so a contract that promises it for an index says
//! from which range that index was drawn.

use rand::Rng;
use vstd::prelude::*;

verus! {

/// `index` was drawn uniformly from `0..n`.
pub closed spec fn uniform_draw(index: int, n: int) -> bool {
    0 <= index < n
}

/// A drawn index lies in the range it was drawn from.
pub proof fn lemma_uniform_draw_in_range(index: int, n: int)
    requires
        uniform_draw(index, n),
    ensures
        0 <= index < n,
{
}

/// Draws one index uniformly from `0..n` with the thread-local generator:
/// `rand::Rng::gen_range` on `rand::thread_rng()`. Its documentation promises a
/// value inside the half-open range and a panic on an empty one, hence the
/// `requires`. Which index comes back rests on chance and is not stated.
#[verifier::external_body]
pub(crate) fn random_index(n: usize) -> (r: usize)
    requires
        n > 0,
    ensures
        r < n,
        uniform_draw(r as int, n as int),
{
    rand::thread_rng().gen_range(0..n)
}

} // verus!
