//! Batches of uniform random draws of indices, the source of randomness for
//! batch sampling.

use vstd::prelude::*;

use crate::draw::{random_index, uniform_draw};

verus! {

/// Draws `count` indices into a collection of `len` items, each uniformly and
/// independently from the whole range `0..len`. A draw needs at least one
/// item, so an empty collection gives no indices at all.
pub fn sample_indices(len: usize, count: usize) -> (r: Vec<usize>)
    ensures
        r@.len() == (if len == 0 { 0 } else { count as int }),
        forall|i: int| 0 <= i < r@.len() ==> r@[i] < len,
        forall|i: int| 0 <= i < r@.len() ==> uniform_draw(#[trigger] r@[i] as int, len as int),
{
    let mut out: Vec<usize> = Vec::new();
    if len == 0 {
        return out;
    }
    let mut k: usize = 0;
    while k < count
        invariant
            len > 0,
            k <= count,
            out@.len() == k,
            forall|i: int| 0 <= i < out@.len() ==> out@[i] < len,
            forall|i: int| 0 <= i < out@.len() ==> uniform_draw(#[trigger] out@[i] as int, len as int),
        decreases count - k,
    {
        let idx = random_index(len);
        out.push(idx);
        k = k + 1;
    }
    out
}

} // verus!
