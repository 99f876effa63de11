use gail_trading::features::feature_plan;
use gail_trading::windows::expert_windows;
use gail_trading::STATE_DIM;

#[test]
fn expert_windows_exact() {
    assert_eq!(expert_windows(20, 1, 5), vec![(8, 13), (13, 18)]);
}

#[test]
fn expert_windows_last_window_clipped_before_last_price() {
    // 18 prices, windows of 5: (18 - 8) / 5 = 2 windows, the second ends at 17 = n - 1.
    assert_eq!(expert_windows(18, 18, 5), vec![(8, 13), (13, 17)]);
}

#[test]
fn expert_windows_skips_empty_window() {
    // window size 1 over 10 prices: windows start at 8 and 9; the one at 9 is empty.
    assert_eq!(expert_windows(10, 10, 1), vec![(8, 9)]);
}

#[test]
fn expert_windows_short_series_or_no_volumes() {
    assert!(expert_windows(13, 13, 5).is_empty());
    assert!(expert_windows(500, 0, 50).is_empty());
    assert!(expert_windows(5, 5, 0).is_empty());
}

#[test]
fn expert_windows_for_a_500_price_series() {
    let w = expert_windows(500, 500, 50);
    // (500 - 8) / 50 = 9 windows of 50 steps
    assert_eq!(w.len(), 9);
    for (i, &(s, e)) in w.iter().enumerate() {
        assert_eq!(s, STATE_DIM + 50 * i);
        assert_eq!(e, s + 50);
        assert!(e < 500);
    }
}

#[test]
fn test_state_features_computation() {
    // At t = 50 of 100 prices every feature has its full history.
    let plan = feature_plan(50, 100, 100).unwrap();
    assert_eq!(plan.t, 50);
    assert_eq!(plan.log_return_from, 49);
    assert_eq!(plan.momentum_from, Some(45));
    assert_eq!(plan.volatility_from, Some(45));
    assert_eq!(plan.rsi_from, Some(43));
    assert_eq!(plan.volume_window, Some((46, 50)));
    assert_eq!(plan.sma_from, Some(31));
    assert_eq!(plan.range_from, Some(46));
    assert_eq!(plan.acceleration_from, Some(48));
}

#[test]
fn feature_plan_out_of_range() {
    assert!(feature_plan(1, 100, 100).is_none());
    assert!(feature_plan(100, 100, 100).is_none());
}

#[test]
fn feature_plan_short_history() {
    let p = feature_plan(3, 100, 100).unwrap();
    assert_eq!(p.momentum_from, None);
    assert_eq!(p.rsi_from, None);
    assert_eq!(p.volume_window, None);
    assert_eq!(p.sma_from, None);
    assert_eq!(p.range_from, None);
    assert_eq!(p.acceleration_from, Some(1));
    let q = feature_plan(19, 100, 100).unwrap();
    assert_eq!(q.sma_from, None);
    assert_eq!(feature_plan(20, 100, 100).unwrap().sma_from, Some(1));
}

#[test]
fn feature_plan_volume_window_clipped_to_volumes() {
    let p = feature_plan(50, 100, 3).unwrap();
    assert_eq!(p.volume_window, Some((0, 2)));
    let q = feature_plan(50, 100, 0).unwrap();
    assert_eq!(q.volume_window, None);
    let r = feature_plan(10, 100, 8).unwrap();
    assert_eq!(r.volume_window, Some((3, 7)));
}
