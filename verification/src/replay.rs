//! The step cursor of the market-replay environment: where an episode
//! starts in the price series, how it advances, and when it is done.
//! The price arithmetic of a step (returns, costs, portfolio value) is done
//! by the caller at the indices this cursor gives.

use vstd::prelude::*;

use crate::draw::{random_index, uniform_draw};
use crate::STATE_DIM;

verus! {

/// The earliest step of an episode: the features need `STATE_DIM + 1` prices of history.
pub const START_OFFSET: usize = 9;

/// The mathematical state of a cursor.
pub struct ReplayState {
    /// Length of the price series.
    pub n_prices: nat,
    /// Maximum number of steps of an episode.
    pub episode_length: nat,
    /// The earliest step an episode may start at.
    pub start_offset: nat,
    /// The step the current episode started at.
    pub episode_start: nat,
    /// Index of the current price.
    pub current_step: nat,
}

/// How many starting steps a reset chooses among: those that leave room for
/// a full episode before the last price (0 when there is no such room, and the
/// episode then starts at the offset).
pub open spec fn spec_max_start(s: ReplayState) -> nat {
    if s.n_prices > s.episode_length + s.start_offset {
        (s.n_prices - s.episode_length - s.start_offset) as nat
    } else {
        0
    }
}

/// The state a reset moves to, given the random draw.
pub open spec fn spec_reset(s: ReplayState, draw: nat) -> ReplayState {
    let start = if spec_max_start(s) > 0 {
        s.start_offset + draw
    } else {
        s.start_offset
    };
    ReplayState { episode_start: start, current_step: start, ..s }
}

/// The episode is over: the last price is reached, or the episode has run its length.
pub open spec fn spec_done(s: ReplayState) -> bool {
    s.current_step >= s.n_prices - 1 || s.current_step >= s.episode_start + s.episode_length
}

/// The same state at another step.
pub open spec fn at_step(s: ReplayState, step: nat) -> ReplayState {
    ReplayState { current_step: step, ..s }
}

/// Cursor over a price series of fixed length.
#[derive(Debug)]
pub struct ReplayCursor {
    n_prices: usize,
    episode_length: usize,
    start_offset: usize,
    episode_start: usize,
    current_step: usize,
}

impl View for ReplayCursor {
    type V = ReplayState;

    closed spec fn view(&self) -> ReplayState {
        ReplayState {
            n_prices: self.n_prices as nat,
            episode_length: self.episode_length as nat,
            start_offset: self.start_offset as nat,
            episode_start: self.episode_start as nat,
            current_step: self.current_step as nat,
        }
    }
}

impl ReplayCursor {
    #[verifier::type_invariant]
    spec fn inv(self) -> bool {
        &&& self.start_offset == STATE_DIM + 1
        &&& self.start_offset <= self.episode_start <= self.current_step
    }

    /// A cursor over `n_prices` prices with episodes of `episode_length`
    /// steps, standing at the start offset as if an episode started there.
    pub fn new(n_prices: usize, episode_length: usize) -> (r: Self)
        ensures
            r@ == (ReplayState {
                n_prices: n_prices as nat,
                episode_length: episode_length as nat,
                start_offset: START_OFFSET as nat,
                episode_start: START_OFFSET as nat,
                current_step: START_OFFSET as nat,
            }),
    {
        ReplayCursor {
            n_prices,
            episode_length,
            start_offset: STATE_DIM + 1,
            episode_start: STATE_DIM + 1,
            current_step: STATE_DIM + 1,
        }
    }

    /// Index of the current price; never before the episode's start, which is
    /// never before the offset.
    pub fn current_step(&self) -> (r: usize)
        ensures
            r == self@.current_step,
            self@.start_offset == START_OFFSET,
            self@.start_offset <= self@.episode_start <= r,
    {
        proof {
            use_type_invariant(self);
        }
        self.current_step
    }

    /// The step the current episode started at.
    pub fn episode_start(&self) -> (r: usize)
        ensures
            r == self@.episode_start,
    {
        self.episode_start
    }

    /// The earliest step an episode may start at.
    pub fn start_offset(&self) -> (r: usize)
        ensures
            r == self@.start_offset,
            r == START_OFFSET,
    {
        proof {
            use_type_invariant(self);
        }
        self.start_offset
    }

    /// Maximum number of steps of an episode.
    pub fn episode_length(&self) -> (r: usize)
        ensures
            r == self@.episode_length,
    {
        self.episode_length
    }

    /// Length of the price series.
    pub fn n_prices(&self) -> (r: usize)
        ensures
            r == self@.n_prices,
    {
        self.n_prices
    }

    /// How many starting steps a reset chooses among.
    pub fn max_start(&self) -> (r: usize)
        ensures
            r == spec_max_start(self@),
            self@.n_prices > self@.episode_length + START_OFFSET ==> r == self@.n_prices
                - self@.episode_length - START_OFFSET,
            self@.n_prices <= self@.episode_length + START_OFFSET ==> r == 0,
    {
        proof {
            use_type_invariant(self);
        }
        if self.n_prices >= self.start_offset && self.n_prices - self.start_offset
            > self.episode_length {
            self.n_prices - self.episode_length - self.start_offset
        } else {
            0
        }
    }

    /// Starts a new episode `draw` steps after the offset when the series
    /// leaves room for a full episode, at the offset otherwise.
    pub fn reset_at(&mut self, draw: usize)
        requires
            spec_max_start(old(self)@) > 0 ==> draw < spec_max_start(old(self)@),
        ensures
            final(self)@ == spec_reset(old(self)@, draw as nat),
            final(self)@.n_prices == old(self)@.n_prices,
            final(self)@.episode_length == old(self)@.episode_length,
            final(self)@.start_offset == START_OFFSET,
            final(self)@.episode_start == final(self)@.current_step,
            old(self)@.n_prices > old(self)@.episode_length + START_OFFSET ==> final(self)@.current_step
                == START_OFFSET + draw,
            old(self)@.n_prices <= old(self)@.episode_length + START_OFFSET ==> final(self)@.current_step
                == START_OFFSET,
    {
        proof {
            use_type_invariant(&*self);
        }
        let max_start = self.max_start();
        let start = if max_start > 0 {
            self.start_offset + draw
        } else {
            self.start_offset
        };
        *self = ReplayCursor {
            n_prices: self.n_prices,
            episode_length: self.episode_length,
            start_offset: self.start_offset,
            episode_start: start,
            current_step: start,
        };
    }

    /// Starts a new episode at a start chosen uniformly at random among the
    /// possible ones.
    pub fn reset(&mut self)
        ensures
            exists|draw: nat|
                #![trigger spec_reset(old(self)@, draw)]
                (spec_max_start(old(self)@) > 0 ==> draw < spec_max_start(old(self)@))
                    && final(self)@ == spec_reset(old(self)@, draw),
            final(self)@.n_prices == old(self)@.n_prices,
            final(self)@.episode_length == old(self)@.episode_length,
            final(self)@.start_offset == START_OFFSET,
            final(self)@.episode_start == final(self)@.current_step,
            old(self)@.n_prices > old(self)@.episode_length + START_OFFSET ==> {
                &&& START_OFFSET <= final(self)@.current_step
                &&& final(self)@.current_step < old(self)@.n_prices - old(self)@.episode_length
                &&& uniform_draw(
                    final(self)@.current_step - START_OFFSET,
                    old(self)@.n_prices - old(self)@.episode_length - START_OFFSET,
                )
            },
            old(self)@.n_prices <= old(self)@.episode_length + START_OFFSET ==> final(self)@.current_step
                == START_OFFSET,
    {
        let max_start = self.max_start();
        let draw = if max_start > 0 {
            random_index(max_start)
        } else {
            0
        };
        self.reset_at(draw);
        assert(final(self)@ == spec_reset(old(self)@, draw as nat));
    }

    /// Advances one step and tells whether the episode is over. The caller
    /// reads the prices at the old and at the new step, so both must exist.
    pub fn advance(&mut self) -> (done: bool)
        requires
            old(self)@.current_step + 1 < old(self)@.n_prices,
        ensures
            final(self)@ == at_step(old(self)@, old(self)@.current_step + 1),
            done == spec_done(final(self)@),
            final(self)@.current_step == old(self)@.current_step + 1,
            final(self)@.episode_start == old(self)@.episode_start,
            done <==> (final(self)@.current_step + 1 >= old(self)@.n_prices
                || final(self)@.current_step - old(self)@.episode_start >= old(self)@.episode_length),
    {
        proof {
            use_type_invariant(&*self);
        }
        self.current_step = self.current_step + 1;
        self.current_step >= self.n_prices - 1 || self.current_step - self.episode_start
            >= self.episode_length
    }
}

/// Law of the reset range: when the series is longer than an episode past
/// the offset, a reset chooses among `n_prices - episode_length - START_OFFSET`
/// starts; otherwise there is no choice.
pub proof fn lemma_max_start(s: ReplayState)
    ensures
        s.n_prices > s.episode_length + s.start_offset ==> spec_max_start(s) == s.n_prices
            - s.episode_length - s.start_offset,
        s.n_prices <= s.episode_length + s.start_offset ==> spec_max_start(s) == 0,
{
}

/// Law of the reset: a reset starts the episode `draw` steps after the offset
/// when the series is longer than an episode past the offset, and at the
/// offset otherwise; it changes nothing but the start and the current step.
pub proof fn lemma_reset(s: ReplayState, draw: nat)
    ensures
        spec_reset(s, draw).n_prices == s.n_prices,
        spec_reset(s, draw).episode_length == s.episode_length,
        spec_reset(s, draw).start_offset == s.start_offset,
        spec_reset(s, draw).episode_start == spec_reset(s, draw).current_step,
        s.n_prices > s.episode_length + s.start_offset ==> spec_reset(s, draw).current_step
            == s.start_offset + draw,
        s.n_prices <= s.episode_length + s.start_offset ==> spec_reset(s, draw).current_step
            == s.start_offset,
{
}

/// After any reset of a series with room for two prices past the offset,
/// and episodes of at least one step, the first step is in bounds.
pub proof fn lemma_reset_can_advance(s: ReplayState, draw: nat)
    requires
        s.n_prices >= s.start_offset + 2,
        s.episode_length >= 1,
        spec_max_start(s) > 0 ==> draw < spec_max_start(s),
    ensures
        spec_reset(s, draw).current_step + 1 < s.n_prices,
{
}

/// While an episode is not done, the next step is in bounds.
pub proof fn lemma_not_done_can_advance(s: ReplayState)
    requires
        !spec_done(s),
    ensures
        s.current_step + 1 < s.n_prices,
{
}

/// An episode lasts at most `episode_length` steps: it is done once that
/// many steps are taken from its start.
pub proof fn lemma_episode_length_bound(s: ReplayState, k: nat)
    requires
        k >= s.episode_length,
    ensures
        spec_done(at_step(s, s.episode_start + k)),
{
}

/// When the series leaves room for a full episode, a reset starts an episode
/// that runs exactly `episode_length` steps: before that it is never done and
/// the next price always exists, and after that many steps it is done.
pub proof fn lemma_full_episode(s: ReplayState, draw: nat, k: nat)
    requires
        spec_max_start(s) > 0,
        draw < spec_max_start(s),
    ensures
        k < s.episode_length ==> {
            let t = spec_reset(s, draw);
            &&& !spec_done(at_step(t, t.episode_start + k))
            &&& t.episode_start + k + 1 < s.n_prices
        },
        spec_done(at_step(spec_reset(s, draw), spec_reset(s, draw).episode_start + s.episode_length)),
{
}

} // verus!
