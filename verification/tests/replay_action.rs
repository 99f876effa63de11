use gail_trading::action::{action_input_slot, action_to_position_halves};
use gail_trading::features::feature_plan;
use gail_trading::replay::{ReplayCursor, START_OFFSET};
use gail_trading::{NUM_ACTIONS, STATE_DIM};

#[test]
fn test_action_to_position_change() {
    let change = |a: usize| f64::from(action_to_position_halves(a)) * 0.5;
    assert_eq!(change(0), -1.0);
    assert_eq!(change(1), -0.5);
    assert_eq!(change(2), 0.0);
    assert_eq!(change(3), 0.5);
    assert_eq!(change(4), 1.0);
}

#[test]
fn unknown_action_holds() {
    assert_eq!(action_to_position_halves(5), 0);
    assert_eq!(action_to_position_halves(usize::MAX), 0);
}

#[test]
fn action_slots_follow_the_state() {
    for a in 0..NUM_ACTIONS {
        assert_eq!(action_input_slot(a), Some(STATE_DIM + a));
    }
    assert_eq!(action_input_slot(NUM_ACTIONS), None);
}

#[test]
fn test_trading_environment() {
    let n = 200;
    let mut c = ReplayCursor::new(n, 50);
    c.reset();
    assert!(feature_plan(c.current_step(), n, n).is_some());
    let done = c.advance();
    assert!(feature_plan(c.current_step(), n, n).is_some());
    assert!(!done || c.current_step() >= n - 1);
}

#[test]
fn new_cursor_stands_at_offset() {
    let c = ReplayCursor::new(100, 10);
    assert_eq!(c.current_step(), START_OFFSET);
    assert_eq!(c.start_offset(), STATE_DIM + 1);
    assert_eq!(c.episode_length(), 10);
    assert_eq!(c.n_prices(), 100);
    assert_eq!(c.max_start(), 81);
}

#[test]
fn reset_start_within_range() {
    for _ in 0..200 {
        let mut c = ReplayCursor::new(100, 10);
        c.reset();
        assert!(c.current_step() >= START_OFFSET);
        assert!(c.current_step() < START_OFFSET + 81);
    }
}

#[test]
fn reset_at_exact() {
    let mut c = ReplayCursor::new(100, 10);
    c.reset_at(80);
    assert_eq!(c.current_step(), 89);
    assert_eq!(c.episode_start(), 89);
    let mut short = ReplayCursor::new(15, 10);
    assert_eq!(short.max_start(), 0);
    short.reset_at(7);
    assert_eq!(short.current_step(), START_OFFSET);
    short.reset();
    assert_eq!(short.current_step(), START_OFFSET);
}

#[test]
fn episode_ends_after_its_length() {
    let mut c = ReplayCursor::new(100, 10);
    c.reset_at(0);
    let mut steps = 0;
    loop {
        let done = c.advance();
        steps += 1;
        if done {
            break;
        }
    }
    assert_eq!(steps, 10);
    assert_eq!(c.current_step(), START_OFFSET + 10);
}

#[test]
fn random_episode_runs_its_full_length() {
    for _ in 0..50 {
        let mut c = ReplayCursor::new(200, 50);
        c.reset();
        let start = c.current_step();
        let mut steps = 0;
        while !c.advance() {
            steps += 1;
        }
        assert_eq!(steps + 1, 50);
        assert_eq!(c.current_step(), start + 50);
        assert!(c.current_step() < 200);
    }
}

#[test]
fn episode_ends_at_last_price() {
    let mut c = ReplayCursor::new(15, 100);
    c.reset();
    let mut steps = 0;
    while !c.advance() {
        steps += 1;
    }
    assert_eq!(steps + 1, 15 - 1 - START_OFFSET);
    assert_eq!(c.current_step(), 14);
}
