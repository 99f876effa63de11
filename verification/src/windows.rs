//! The candidate windows of a price series from which expert trajectories
//! are cut: consecutive windows of a fixed length, after the first
//! `STATE_DIM` prices that the state features need as history.

use vstd::prelude::*;

use crate::STATE_DIM;

verus! {

/// The `w`-th window, `[w * size + STATE_DIM, min(start + size, n - 1))`.
pub open spec fn window_at(n: int, size: int, w: int) -> (int, int) {
    let start = w * size + STATE_DIM;
    let end = if start + size < n - 1 { start + size } else { n - 1 };
    (start, end)
}

/// The non-empty windows among the first `count` ones, in order.
pub open spec fn windows_upto(n: int, size: int, count: nat) -> Seq<(usize, usize)>
    decreases count,
{
    if count == 0 {
        Seq::empty()
    } else {
        let prev = windows_upto(n, size, (count - 1) as nat);
        let (s, e) = window_at(n, size, count - 1);
        if e <= s {
            prev
        } else {
            prev.push((s as usize, e as usize))
        }
    }
}

/// The candidate windows of a series of `n_prices` prices and `n_volumes`
/// volumes: none when the series is shorter than one window plus the
/// feature history plus one, or when there are no volumes; otherwise every
/// non-empty window among the `(n_prices - STATE_DIM) / size` ones.
pub open spec fn spec_expert_windows(n_prices: int, n_volumes: int, size: int) -> Seq<(usize, usize)> {
    if n_prices < size + STATE_DIM + 1 || n_volumes == 0 {
        Seq::empty()
    } else {
        windows_upto(n_prices, size, ((n_prices - STATE_DIM) / size) as nat)
    }
}

/// The first `count` windows, for `count` up to the number of windows, have
/// the closed form `start = i * size + STATE_DIM`, `end = min(start + size, n - 1)`;
/// all of them are non-empty except possibly the last of all, which is empty
/// exactly when it would start at the last price.
proof fn lemma_windows_upto_shape(n: int, size: int, count: nat)
    requires
        size > 0,
        n >= size + STATE_DIM + 1,
        n <= usize::MAX,
        count <= (n - STATE_DIM) / size,
    ensures
        forall|i: int|
            0 <= i < windows_upto(n, size, count).len() ==> {
                let w = #[trigger] windows_upto(n, size, count)[i];
                &&& w.0 == i * size + STATE_DIM
                &&& w.1 == (if i * size + STATE_DIM + size < n - 1 {
                    i * size + STATE_DIM + size
                } else {
                    n - 1
                })
            },
        windows_upto(n, size, count).len() == (if count > 0 && (count - 1) * size + STATE_DIM
            >= n - 1 {
            count - 1
        } else {
            count as int
        }),
    decreases count,
{
    if count > 0 {
        let c = count as int;
        let q = (n - STATE_DIM) / size;
        assert(q * size <= n - STATE_DIM) by (nonlinear_arith)
            requires
                size > 0,
                n - STATE_DIM >= 0,
                q == (n - STATE_DIM) / size,
        ;
        assert(c * size <= q * size) by (nonlinear_arith)
            requires
                c <= q,
                size > 0,
        ;
        assert((c - 1) * size + size == c * size) by (nonlinear_arith);
        assert((c - 2) * size + size == (c - 1) * size) by (nonlinear_arith);
        assert((c - 1) * size >= 0) by (nonlinear_arith)
            requires
                c >= 1,
                size > 0,
        ;
        lemma_windows_upto_shape(n, size, (count - 1) as nat);
        let prev = windows_upto(n, size, (count - 1) as nat);
        assert(prev.len() == c - 1);
        let r = windows_upto(n, size, count);
        assert forall|i: int| 0 <= i < r.len() implies {
            let w = #[trigger] r[i];
            &&& w.0 == i * size + STATE_DIM
            &&& w.1 == (if i * size + STATE_DIM + size < n - 1 {
                i * size + STATE_DIM + size
            } else {
                n - 1
            })
        } by {
            if i < prev.len() {
                assert(r[i] == prev[i]);
            }
        }
    }
}

/// Law of the candidate windows: a series with room for a window past the
/// feature history (and with volumes) has at least one window, the first at
/// `(STATE_DIM, min(STATE_DIM + size, n - 1))`; the `i`-th window starts at
/// `i * size + STATE_DIM` and ends at `min(start + size, n - 1)`; and there is one
/// window for each `w < (n - STATE_DIM) / size` whose start lies before the last price.
pub proof fn lemma_expert_windows(n_prices: int, n_volumes: int, size: int)
    requires
        size > 0,
        n_prices >= size + STATE_DIM + 1,
        n_prices <= usize::MAX,
        n_volumes > 0,
    ensures
        spec_expert_windows(n_prices, n_volumes, size).len() >= 1,
        spec_expert_windows(n_prices, n_volumes, size)[0] == ((STATE_DIM as usize), (if STATE_DIM
            + size < n_prices - 1 {
            STATE_DIM + size
        } else {
            n_prices - 1
        }) as usize),
        forall|i: int|
            0 <= i < spec_expert_windows(n_prices, n_volumes, size).len() ==> {
                let w = #[trigger] spec_expert_windows(n_prices, n_volumes, size)[i];
                &&& w.0 == i * size + STATE_DIM
                &&& w.1 == (if i * size + STATE_DIM + size < n_prices - 1 {
                    i * size + STATE_DIM + size
                } else {
                    n_prices - 1
                })
            },
        spec_expert_windows(n_prices, n_volumes, size).len() <= (n_prices - STATE_DIM) / size,
        forall|w: int|
            0 <= w < (n_prices - STATE_DIM) / size && #[trigger] (w * size) + STATE_DIM < n_prices
                - 1 ==> w < spec_expert_windows(n_prices, n_volumes, size).len(),
{
    let q = (n_prices - STATE_DIM) / size;
    assert(q >= 1) by (nonlinear_arith)
        requires
            size > 0,
            n_prices - STATE_DIM >= size + 1,
            q == (n_prices - STATE_DIM) / size,
    ;
    lemma_windows_upto_shape(n_prices, size, q as nat);
    let r = spec_expert_windows(n_prices, n_volumes, size);
    assert(r.len() >= 1) by {
        if q == 1 {
            assert((q - 1) * size == 0) by (nonlinear_arith)
                requires
                    q == 1,
            ;
        }
    }
    assert(r[0].0 == 0 * size + STATE_DIM);
    assert(0 * size == 0) by (nonlinear_arith);
    assert forall|w: int|
        0 <= w < q && #[trigger] (w * size) + STATE_DIM < n_prices - 1 implies w < r.len() by {
        if r.len() < q {
            assert(w * size <= (q - 1) * size) by (nonlinear_arith)
                requires
                    w <= q - 1,
                    size > 0,
            ;
        }
    }
}

/// Law of the candidate windows: a series too short for one window past the
/// feature history, or without volumes, has none.
pub proof fn lemma_expert_windows_none(n_prices: int, n_volumes: int, size: int)
    requires
        n_prices < size + STATE_DIM + 1 || n_volumes == 0,
    ensures
        spec_expert_windows(n_prices, n_volumes, size).len() == 0,
{
}

/// Lists the candidate windows `(start, end)` of a price series, in order of
/// position and without overlap. Each window is non-empty and ends before the
/// last price, so that the price after each of its steps exists.
pub fn expert_windows(n_prices: usize, n_volumes: usize, window_size: usize) -> (r: Vec<(usize, usize)>)
    requires
        window_size > 0 || n_prices < STATE_DIM + 1 || n_volumes == 0,
    ensures
        r@ == spec_expert_windows(n_prices as int, n_volumes as int, window_size as int),
        forall|i: int|
            0 <= i < r@.len() ==> STATE_DIM <= (#[trigger] r@[i]).0 < r@[i].1 && r@[i].1
                < n_prices && r@[i].1 - r@[i].0 <= window_size,
        forall|i: int, j: int| 0 <= i < j < r@.len() ==> r@[i].1 <= r@[j].0,
        n_prices >= window_size + STATE_DIM + 1 && n_volumes > 0 ==> {
            &&& r@.len() >= 1
            &&& r@[0].0 == STATE_DIM
            &&& r@[0].1 == (if STATE_DIM + window_size < n_prices - 1 {
                STATE_DIM + window_size
            } else {
                n_prices - 1
            })
            &&& forall|i: int|
                0 <= i < r@.len() ==> (#[trigger] r@[i]).0 == i * window_size + STATE_DIM
                    && r@[i].1 == (if i * window_size + STATE_DIM + window_size < n_prices - 1 {
                    i * window_size + STATE_DIM + window_size
                } else {
                    n_prices - 1
                })
            &&& r@.len() <= (n_prices - STATE_DIM) / (window_size as int)
            &&& forall|w: int|
                0 <= w < (n_prices - STATE_DIM) / (window_size as int) && #[trigger] (w
                    * window_size) + STATE_DIM < n_prices - 1 ==> w < r@.len()
        },
        n_prices < window_size + STATE_DIM + 1 || n_volumes == 0 ==> r@.len() == 0,
{
    let mut out: Vec<(usize, usize)> = Vec::new();
    if n_prices < STATE_DIM + 1 || n_prices - (STATE_DIM + 1) < window_size || n_volumes == 0 {
        return out;
    }
    let ghost n = n_prices as int;
    let ghost size = window_size as int;
    let num_windows = (n_prices - STATE_DIM) / window_size;
    proof {
        let q = (n - STATE_DIM) / size;
        assert(q * size <= n - STATE_DIM) by (nonlinear_arith)
            requires
                size > 0,
                n - STATE_DIM >= 0,
                q == (n - STATE_DIM) / size,
        ;
    }
    let mut w: usize = 0;
    let mut start: usize = STATE_DIM;
    while w < num_windows
        invariant
            n == n_prices,
            size == window_size,
            size > 0,
            n >= size + STATE_DIM + 1,
            num_windows == (n - STATE_DIM) / size,
            num_windows * size <= n - STATE_DIM,
            w <= num_windows,
            start == w * size + STATE_DIM,
            out@ == windows_upto(n, size, w as nat),
            forall|i: int|
                0 <= i < out@.len() ==> STATE_DIM <= (#[trigger] out@[i]).0 < out@[i].1
                    && out@[i].1 < n_prices && out@[i].1 - out@[i].0 <= window_size,
            forall|i: int| 0 <= i < out@.len() ==> (#[trigger] out@[i]).1 <= start,
            forall|i: int, j: int| 0 <= i < j < out@.len() ==> out@[i].1 <= out@[j].0,
        decreases num_windows - w,
    {
        proof {
            let ww = w as int;
            let nw = num_windows as int;
            assert((ww + 1) * size <= nw * size) by (nonlinear_arith)
                requires
                    ww + 1 <= nw,
                    size > 0,
            ;
            assert((ww + 1) * size == ww * size + size) by (nonlinear_arith);
        }
        let end = if start + window_size < n_prices - 1 {
            start + window_size
        } else {
            n_prices - 1
        };
        if end > start {
            out.push((start, end));
        }
        w = w + 1;
        start = start + window_size;
    }
    proof {
        lemma_expert_windows(n, n_volumes as int, size);
    }
    out
}

} // verus!
