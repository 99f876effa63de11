//! Verified core of a GAIL (generative adversarial imitation learning)
//! trading agent: the bookkeeping of expert datasets, batch sampling,
//! window selection over a price series, the feature schedule of the
//! state representation, the step cursor of the market-replay
//! environment, and the request side of the Bybit kline client.
//!
//! The numeric parts (neural networks, floating-point features and
//! rewards) live in the application crate around this library.

use vstd::prelude::*;

pub mod action;
pub mod bybit;
pub mod dataset;
pub mod draw;
pub mod features;
pub mod replay;
pub mod sampling;
pub mod windows;

verus! {

/// Number of features in the state representation.
pub const STATE_DIM: usize = 8;

/// Number of discrete actions: StrongSell, Sell, Hold, Buy, StrongBuy.
pub const NUM_ACTIONS: usize = 5;

} // verus!
