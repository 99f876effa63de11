//! The schedule of the state features: for a time step `t` of a price
//! series, which features can be computed and which prices and volumes
//! each one reads. The arithmetic of the features themselves is done by
//! the caller; this schedule decides what it may index.

use vstd::prelude::*;

verus! {

/// What the features at one time step read. Each `Some` gives the first
/// index of the inclusive window `[from, t]` that the feature reads; `None`
/// means the series is too short there and the feature stays zero.
#[derive(Debug, Clone, Copy, PartialEq, Eq)]
pub struct FeaturePlan {
    /// The time step.
    pub t: usize,
    /// Log return: prices `t - 1 ..= t` (always available).
    pub log_return_from: usize,
    /// 5-period momentum: prices `t - 5 ..= t`.
    pub momentum_from: Option<usize>,
    /// 5-period realized volatility of log returns: prices `t - 5 ..= t`.
    pub volatility_from: Option<usize>,
    /// 7-period RSI approximation: prices `t - 7 ..= t`.
    pub rsi_from: Option<usize>,
    /// Volume ratio: volumes `start ..= end`, the last (up to) five volumes
    /// ending at `min(t, last volume)`.
    pub volume_window: Option<(usize, usize)>,
    /// Deviation from the 20-period mean: prices `t - 19 ..= t`.
    pub sma_from: Option<usize>,
    /// 5-period high-low range: prices `t - 4 ..= t`.
    pub range_from: Option<usize>,
    /// 2-period return acceleration: prices `t - 2 ..= t`.
    pub acceleration_from: Option<usize>,
}

/// The window that starts `back` steps before `t`, available from step `need` on.
pub open spec fn lookback(t: int, need: int, back: int) -> Option<usize> {
    if t >= need {
        Some((t - back) as usize)
    } else {
        None
    }
}

/// The volume window at step `t` over `n_volumes` volumes.
pub open spec fn spec_volume_window(t: int, n_volumes: int) -> Option<(usize, usize)> {
    if t >= 5 && n_volumes > 0 {
        let end = if t < n_volumes - 1 { t } else { n_volumes - 1 };
        let start = if end >= 5 { end - 4 } else { 0 };
        Some((start as usize, end as usize))
    } else {
        None
    }
}

/// The feature schedule at step `t`: none (all features zero) unless
/// `2 <= t < n_prices`.
pub open spec fn spec_feature_plan(t: int, n_prices: int, n_volumes: int) -> Option<FeaturePlan> {
    if t < 2 || t >= n_prices {
        None
    } else {
        Some(
            FeaturePlan {
                t: t as usize,
                log_return_from: (t - 1) as usize,
                momentum_from: lookback(t, 5, 5),
                volatility_from: lookback(t, 5, 5),
                rsi_from: lookback(t, 7, 7),
                volume_window: spec_volume_window(t, n_volumes),
                sma_from: lookback(t, 20, 19),
                range_from: lookback(t, 5, 4),
                acceleration_from: lookback(t, 3, 2),
            },
        )
    }
}

/// Law of the feature schedule: a step has features exactly when it has a
/// previous price and lies inside the series (the last price included), and
/// then each feature reads the window ending at `t` that its period asks for,
/// as soon as the series reaches back far enough.
pub proof fn lemma_feature_plan(t: int, n_prices: int, n_volumes: int)
    requires
        0 <= t <= usize::MAX,
    ensures
        spec_feature_plan(t, n_prices, n_volumes) is Some <==> 2 <= t < n_prices,
        spec_feature_plan(t, n_prices, n_volumes) matches Some(p) ==> {
            &&& p.t == t
            &&& p.log_return_from == t - 1
            &&& (p.momentum_from is Some <==> t >= 5)
            &&& (p.momentum_from matches Some(f) ==> f == t - 5)
            &&& (p.volatility_from is Some <==> t >= 5)
            &&& (p.volatility_from matches Some(f) ==> f == t - 5)
            &&& (p.rsi_from is Some <==> t >= 7)
            &&& (p.rsi_from matches Some(f) ==> f == t - 7)
            &&& (p.sma_from is Some <==> t >= 20)
            &&& (p.sma_from matches Some(f) ==> f + 19 == t)
            &&& (p.range_from is Some <==> t >= 5)
            &&& (p.range_from matches Some(f) ==> f + 4 == t)
            &&& (p.acceleration_from is Some <==> t >= 3)
            &&& (p.acceleration_from matches Some(f) ==> f + 2 == t)
            &&& (p.volume_window is Some <==> t >= 5 && n_volumes > 0)
            &&& (p.volume_window matches Some((s, e)) ==> {
                &&& e == (if t < n_volumes - 1 { t } else { n_volumes - 1 })
                &&& s == (if e >= 5 { e - 4 } else { 0 })
            })
        },
{
}

fn lookback_from(t: usize, need: usize, back: usize) -> (r: Option<usize>)
    requires
        back <= need,
    ensures
        r == lookback(t as int, need as int, back as int),
{
    if t >= need {
        Some(t - back)
    } else {
        None
    }
}

/// Plans the features at step `t` of a series of `n_prices` prices and
/// `n_volumes` volumes. Every window it gives lies inside the series.
pub fn feature_plan(t: usize, n_prices: usize, n_volumes: usize) -> (r: Option<FeaturePlan>)
    ensures
        r == spec_feature_plan(t as int, n_prices as int, n_volumes as int),
        r is Some <==> 2 <= t < n_prices,
        r matches Some(p) ==> {
            &&& p.t < n_prices
            &&& p.volume_window matches Some((s, e)) ==> s <= e < n_volumes && e - s < 5
        },
{
    if t < 2 || t >= n_prices {
        return None;
    }
    let volume_window = if t >= 5 && n_volumes > 0 {
        let end = if t < n_volumes - 1 {
            t
        } else {
            n_volumes - 1
        };
        let start = if end >= 5 {
            end - 4
        } else {
            0
        };
        Some((start, end))
    } else {
        None
    };
    Some(
        FeaturePlan {
            t,
            log_return_from: t - 1,
            momentum_from: lookback_from(t, 5, 5),
            volatility_from: lookback_from(t, 5, 5),
            rsi_from: lookback_from(t, 7, 7),
            volume_window,
            sma_from: lookback_from(t, 20, 19),
            range_from: lookback_from(t, 5, 4),
            acceleration_from: lookback_from(t, 3, 2),
        },
    )
}

} // verus!
