//! Expert trajectories and the flat pool of their state-action pairs.
//!
//! The state representation is a type parameter: the library keeps the
//! pairs in order and hands out copies, whatever a state is made of.

use vstd::prelude::*;

use crate::draw::uniform_draw;
use crate::sampling::sample_indices;

verus! {

/// A single state-action pair from a trajectory.
#[derive(Debug)]
pub struct StateActionPair<S> {
    pub state: S,
    pub action: usize,
}

impl<S: Clone> Clone for StateActionPair<S> {
    fn clone(&self) -> (r: Self)
        ensures
            copy_of(*self, r),
    {
        StateActionPair { state: self.state.clone(), action: self.action }
    }
}

/// `b` is a copy of `a`: the same action, and a state that cloning `a`'s
/// state can give.
pub open spec fn copy_of<S: Clone>(a: StateActionPair<S>, b: StateActionPair<S>) -> bool {
    &&& b.action == a.action
    &&& cloned(a.state, b.state)
}

/// `b` is a copy of the pair of `pool` at an index drawn uniformly from the
/// whole pool, `0..pool.len()`.
pub open spec fn drawn_from<S: Clone>(pool: Seq<StateActionPair<S>>, b: StateActionPair<S>) -> bool {
    exists|k: int|
        0 <= k < pool.len() && uniform_draw(k, pool.len() as int) && #[trigger] copy_of(
            pool[k],
            b,
        )
}

/// A trajectory: a sequence of state-action pairs with its cumulative reward.
#[derive(Debug, Clone)]
pub struct Trajectory<S, R> {
    pub pairs: Vec<StateActionPair<S>>,
    pub total_reward: R,
}

/// The pairs of all trajectories, trajectory after trajectory, each in its
/// own order.
pub open spec fn flat_pairs<S, R>(trajs: Seq<Trajectory<S, R>>) -> Seq<StateActionPair<S>>
    decreases trajs.len(),
{
    if trajs.len() == 0 {
        Seq::empty()
    } else {
        flat_pairs(trajs.drop_last()) + trajs.last().pairs@
    }
}

/// The number of pairs of all trajectories together.
pub open spec fn total_pairs<S, R>(trajs: Seq<Trajectory<S, R>>) -> nat
    decreases trajs.len(),
{
    if trajs.len() == 0 {
        0
    } else {
        total_pairs(trajs.drop_last()) + trajs.last().pairs@.len()
    }
}

/// The pool of all pairs is as long as the trajectories together.
pub proof fn lemma_flat_pairs_len<S, R>(trajs: Seq<Trajectory<S, R>>)
    ensures
        flat_pairs(trajs).len() == total_pairs(trajs),
    decreases trajs.len(),
{
    if trajs.len() > 0 {
        lemma_flat_pairs_len(trajs.drop_last());
    }
}

/// Expert dataset: the expert trajectories, and every pair of them gathered
/// in one pool to sample from.
#[derive(Debug, Clone)]
pub struct ExpertDataset<S, R> {
    pub trajectories: Vec<Trajectory<S, R>>,
    pub all_pairs: Vec<StateActionPair<S>>,
}

impl<S: Clone, R> ExpertDataset<S, R> {
    /// The pool holds a copy of each pair of each trajectory, in the order of
    /// the trajectories and of the pairs within each.
    pub open spec fn wf(&self) -> bool {
        let flat = flat_pairs(self.trajectories@);
        &&& self.all_pairs@.len() == flat.len()
        &&& forall|k: int| 0 <= k < flat.len() ==> #[trigger] copy_of(flat[k], self.all_pairs@[k])
    }

    /// Creates an empty expert dataset.
    pub fn new() -> (r: Self)
        ensures
            r.trajectories@.len() == 0,
            r.all_pairs@.len() == 0,
            r.wf(),
    {
        ExpertDataset { trajectories: Vec::new(), all_pairs: Vec::new() }
    }

    /// Adds a trajectory: a copy of each of its pairs joins the pool, in
    /// order, and the trajectory itself joins the list.
    pub fn add_trajectory(&mut self, trajectory: Trajectory<S, R>)
        ensures
            final(self).trajectories@ == old(self).trajectories@.push(trajectory),
            final(self).all_pairs@.len() == old(self).all_pairs@.len() + trajectory.pairs@.len(),
            final(self).all_pairs@.subrange(0, old(self).all_pairs@.len() as int)
                == old(self).all_pairs@,
            forall|j: int|
                0 <= j < trajectory.pairs@.len() ==> #[trigger] copy_of(
                    trajectory.pairs@[j],
                    final(self).all_pairs@[old(self).all_pairs@.len() + j],
                ),
            old(self).wf() ==> final(self).wf(),
    {
        let ghost old_pairs = self.all_pairs@;
        let n = trajectory.pairs.len();
        let mut j: usize = 0;
        while j < n
            invariant
                n == trajectory.pairs@.len(),
                j <= n,
                self.trajectories@ == old(self).trajectories@,
                old_pairs == old(self).all_pairs@,
                self.all_pairs@.len() == old_pairs.len() + j,
                self.all_pairs@.subrange(0, old_pairs.len() as int) == old_pairs,
                forall|i: int|
                    0 <= i < j ==> #[trigger] copy_of(
                        trajectory.pairs@[i],
                        self.all_pairs@[old_pairs.len() + i],
                    ),
            decreases n - j,
        {
            let p = trajectory.pairs[j].clone();
            self.all_pairs.push(p);
            proof {
                assert(self.all_pairs@.subrange(0, old_pairs.len() as int) =~= old_pairs);
            }
            j = j + 1;
        }
        self.trajectories.push(trajectory);
        proof {
            let ts = self.trajectories@;
            assert(ts.drop_last() =~= old(self).trajectories@);
            if old(self).wf() {
                let flat_old = flat_pairs(old(self).trajectories@);
                let flat = flat_pairs(ts);
                assert(flat =~= flat_old + trajectory.pairs@);
                assert forall|k: int| 0 <= k < flat.len() implies #[trigger] copy_of(
                    flat[k],
                    self.all_pairs@[k],
                ) by {
                    if k < flat_old.len() {
                        assert(self.all_pairs@[k] == self.all_pairs@.subrange(
                            0,
                            old_pairs.len() as int,
                        )[k]);
                        assert(copy_of(flat_old[k], old_pairs[k]));
                    } else {
                        let i = k - flat_old.len();
                        assert(copy_of(
                            trajectory.pairs@[i],
                            self.all_pairs@[old_pairs.len() + i],
                        ));
                    }
                }
            }
        }
    }

    /// Number of state-action pairs in the pool; on a well-formed dataset,
    /// the number of pairs of all its trajectories together.
    pub fn len(&self) -> (r: usize)
        ensures
            r == self.all_pairs@.len(),
            self.wf() ==> r == total_pairs(self.trajectories@),
    {
        proof {
            lemma_flat_pairs_len(self.trajectories@);
        }
        self.all_pairs.len()
    }

    /// Whether the pool holds no pair.
    pub fn is_empty(&self) -> (r: bool)
        ensures
            r == (self.all_pairs@.len() == 0),
            self.wf() ==> (r <==> total_pairs(self.trajectories@) == 0),
    {
        proof {
            lemma_flat_pairs_len(self.trajectories@);
        }
        self.all_pairs.len() == 0
    }

    /// Samples `batch_size` pairs from the pool, each drawn uniformly and
    /// independently (with replacement). An empty pool gives an empty batch.
    pub fn sample_batch(&self, batch_size: usize) -> (r: Vec<StateActionPair<S>>)
        ensures
            r@.len() == (if self.all_pairs@.len() == 0 { 0 } else { batch_size as int }),
            forall|i: int| 0 <= i < r@.len() ==> #[trigger] drawn_from(self.all_pairs@, r@[i]),
    {
        sample_from_pairs(self.all_pairs.as_slice(), batch_size)
    }
}

impl<S: Clone, R> Default for ExpertDataset<S, R> {
    fn default() -> (r: Self)
        ensures
            r.trajectories@.len() == 0,
            r.all_pairs@.len() == 0,
            r.wf(),
    {
        Self::new()
    }
}

/// Copies the pairs at the given positions, in the order of `indices`.
pub fn pairs_at<S: Clone>(pairs: &[StateActionPair<S>], indices: &Vec<usize>) -> (r: Vec<
    StateActionPair<S>,
>)
    requires
        forall|i: int| 0 <= i < indices@.len() ==> indices@[i] < pairs@.len(),
    ensures
        r@.len() == indices@.len(),
        forall|i: int|
            0 <= i < r@.len() ==> #[trigger] copy_of(pairs@[indices@[i] as int], r@[i]),
{
    let mut out: Vec<StateActionPair<S>> = Vec::new();
    let mut i: usize = 0;
    while i < indices.len()
        invariant
            i <= indices@.len(),
            out@.len() == i,
            forall|q: int| 0 <= q < indices@.len() ==> indices@[q] < pairs@.len(),
            forall|q: int|
                0 <= q < i ==> #[trigger] copy_of(pairs@[indices@[q] as int], out@[q]),
        decreases indices@.len() - i,
    {
        let p = pairs[indices[i]].clone();
        out.push(p);
        i = i + 1;
    }
    out
}

/// Samples `n` pairs uniformly with replacement from `pairs`; an empty
/// collection gives an empty batch.
pub fn sample_from_pairs<S: Clone>(pairs: &[StateActionPair<S>], n: usize) -> (r: Vec<
    StateActionPair<S>,
>)
    ensures
        r@.len() == (if pairs@.len() == 0 { 0 } else { n as int }),
        forall|i: int| 0 <= i < r@.len() ==> #[trigger] drawn_from(pairs@, r@[i]),
{
    let indices = sample_indices(pairs.len(), n);
    let out = pairs_at(pairs, &indices);
    assert forall|i: int| 0 <= i < out@.len() implies #[trigger] drawn_from(pairs@, out@[i]) by {
        let k = indices@[i] as int;
        assert(0 <= k < pairs@.len());
        assert(uniform_draw(k, pairs@.len() as int));
        assert(copy_of(pairs@[k], out@[i]));
    }
    out
}

} // verus!
