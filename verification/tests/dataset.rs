use gail_trading::dataset::{pairs_at, sample_from_pairs, ExpertDataset, StateActionPair, Trajectory};
use gail_trading::sampling::sample_indices;

fn pair(x: f64, action: usize) -> StateActionPair<Vec<f64>> {
    StateActionPair { state: vec![x, -x], action }
}

fn trajectory(xs: &[f64], reward: f64) -> Trajectory<Vec<f64>, f64> {
    Trajectory {
        pairs: xs.iter().enumerate().map(|(i, &x)| pair(x, i % 5)).collect(),
        total_reward: reward,
    }
}

#[test]
fn new_dataset_is_empty() {
    let d: ExpertDataset<Vec<f64>, f64> = ExpertDataset::new();
    assert!(d.is_empty());
    assert_eq!(d.len(), 0);
    assert!(d.trajectories.is_empty());
    let e: ExpertDataset<Vec<f64>, f64> = ExpertDataset::default();
    assert!(e.is_empty());
}

#[test]
fn add_trajectory_pools_pairs_in_order() {
    let mut d = ExpertDataset::new();
    d.add_trajectory(trajectory(&[0.1, 0.2, 0.3], 0.5));
    d.add_trajectory(trajectory(&[], 0.0));
    d.add_trajectory(trajectory(&[0.4, 0.5], -0.1));
    assert_eq!(d.len(), 5);
    assert!(!d.is_empty());
    assert_eq!(d.trajectories.len(), 3);
    let expected = [0.1, 0.2, 0.3, 0.4, 0.5];
    let actions = [0, 1, 2, 0, 1];
    for (k, p) in d.all_pairs.iter().enumerate() {
        assert_eq!(p.state, vec![expected[k], -expected[k]]);
        assert_eq!(p.action, actions[k]);
    }
    assert_eq!(d.trajectories[2].total_reward, -0.1);
}

#[test]
fn sample_batch_has_requested_size_and_draws_from_pool() {
    let mut d = ExpertDataset::new();
    d.add_trajectory(trajectory(&[1.0, 2.0, 3.0], 1.0));
    let batch = d.sample_batch(64);
    assert_eq!(batch.len(), 64);
    for p in &batch {
        assert!(d.all_pairs.iter().any(|q| q.state == p.state && q.action == p.action));
    }
}

#[test]
fn sample_batch_of_empty_dataset_is_empty() {
    let d: ExpertDataset<Vec<f64>, f64> = ExpertDataset::new();
    assert!(d.sample_batch(32).is_empty());
}

#[test]
fn sample_from_pairs_sizes() {
    let pairs = vec![pair(1.0, 0), pair(2.0, 4)];
    let b = sample_from_pairs(&pairs, 10);
    assert_eq!(b.len(), 10);
    for p in &b {
        assert!((p.state[0] == 1.0 && p.action == 0) || (p.state[0] == 2.0 && p.action == 4));
    }
    let none: Vec<StateActionPair<Vec<f64>>> = Vec::new();
    assert!(sample_from_pairs(&none, 10).is_empty());
    assert!(sample_from_pairs(&pairs, 0).is_empty());
}

#[test]
fn pairs_at_copies_in_index_order() {
    let pairs = vec![pair(1.0, 0), pair(2.0, 1), pair(3.0, 2)];
    let out = pairs_at(&pairs, &vec![2, 0, 2]);
    let xs: Vec<f64> = out.iter().map(|p| p.state[0]).collect();
    assert_eq!(xs, vec![3.0, 1.0, 3.0]);
    assert_eq!(out[0].action, 2);
    assert_eq!(out[1].action, 0);
}

#[test]
fn sample_indices_in_range() {
    let idx = sample_indices(7, 100);
    assert_eq!(idx.len(), 100);
    assert!(idx.iter().all(|&i| i < 7));
    assert!(sample_indices(0, 100).is_empty());
    assert!(sample_indices(3, 0).is_empty());
}
