//! Planning: trial partitioning, worker seeds and rejection of bad requests.

use tol_stack::{plan_simulation, plan_simulation_entropy, StackError};

#[test]
fn zero_trials_is_rejected() {
    let r = plan_simulation(0, 4, 7);
    assert_eq!(r.unwrap_err(), StackError::InvalidArgument);
    let e = plan_simulation_entropy(0, 4);
    assert_eq!(e.unwrap_err(), StackError::InvalidArgument);
}

#[test]
fn remainder_trials_go_to_the_first_workers() {
    let p = plan_simulation(10, 4, 0).unwrap();
    assert_eq!(p.chunks, vec![3, 3, 2, 2]);
    assert_eq!(p.seeds, vec![0, 1, 2, 3]);
}

#[test]
fn even_split_has_equal_chunks() {
    let p = plan_simulation(12, 3, 100).unwrap();
    assert_eq!(p.chunks, vec![4, 4, 4]);
    assert_eq!(p.seeds, vec![100, 101, 102]);
}

#[test]
fn worker_count_is_clamped_to_trial_count() {
    let p = plan_simulation(7, 10, 5).unwrap();
    assert_eq!(p.chunks, vec![1, 1, 1, 1, 1, 1, 1]);
    assert_eq!(p.seeds, vec![5, 6, 7, 8, 9, 10, 11]);
}

#[test]
fn zero_workers_means_one_worker() {
    let p = plan_simulation(5, 0, 9).unwrap();
    assert_eq!(p.chunks, vec![5]);
    assert_eq!(p.seeds, vec![9]);
}

#[test]
fn seeds_wrap_and_stay_distinct() {
    let p = plan_simulation(3, 3, u64::MAX).unwrap();
    assert_eq!(p.seeds, vec![u64::MAX, 0, 1]);
    for i in 0..p.seeds.len() {
        for j in (i + 1)..p.seeds.len() {
            assert_ne!(p.seeds[i], p.seeds[j]);
        }
    }
}

#[test]
fn chunk_totals_are_exact_for_many_worker_counts() {
    let n: usize = 1_000_003;
    for workers in [1usize, 2, 3, 4, 7, 16, 1000, 2_000_000] {
        let p = plan_simulation(n, workers, 1).unwrap();
        let total: usize = p.chunks.iter().sum();
        assert_eq!(total, n);
        assert!(p.chunks.iter().all(|c| *c >= 1));
        let max = p.chunks.iter().max().unwrap();
        let min = p.chunks.iter().min().unwrap();
        assert!(max - min <= 1);
    }
}

#[test]
fn plans_with_the_same_inputs_are_identical() {
    let a = plan_simulation(1_000, 7, 42).unwrap();
    let b = plan_simulation(1_000, 7, 42).unwrap();
    assert_eq!(a.chunks, b.chunks);
    assert_eq!(a.seeds, b.seeds);
}

#[test]
fn entropy_plan_covers_every_trial() {
    let p = plan_simulation_entropy(101, 4).unwrap();
    assert_eq!(p.chunks.len(), 4);
    let total: usize = p.chunks.iter().sum();
    assert_eq!(total, 101);
    assert_eq!(p.seeds.len(), 4);
    for i in 0..p.seeds.len() {
        for j in (i + 1)..p.seeds.len() {
            assert_ne!(p.seeds[i], p.seeds[j]);
        }
    }
}

#[test]
fn a_single_trial_makes_a_single_chunk() {
    let p = plan_simulation(1, 8, 2).unwrap();
    assert_eq!(p.chunks, vec![1]);
    assert_eq!(p.seeds, vec![2]);
}
