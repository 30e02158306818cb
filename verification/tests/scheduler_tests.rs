//! The worker-thread balancing policy.

use tick_engine::scheduler::{min_thread, BalancingScheduler, Decision};

#[test]
fn min_thread_picks_first_minimum() {
    assert_eq!(min_thread(&vec![2, 1, 3]), 1);
    assert_eq!(min_thread(&vec![5, 5, 5]), 0);
    assert_eq!(min_thread(&vec![4, 2, 2, 7]), 1);
    assert_eq!(min_thread(&vec![9]), 0);
}

#[test]
fn scheduler_hands_out_sequential_thread_ids() {
    let mut s = BalancingScheduler::new(3);
    assert_eq!(s.queue_lengths.len(), 3);
    let t0 = s.spawn_thread();
    let t1 = s.spawn_thread();
    assert_eq!(t0.thread_id, 0);
    assert_eq!(t1.thread_id, 1);
    assert_eq!(s.thread_counter, 2);
}

#[test]
fn spawned_round_robins_when_a_thread_is_idle() {
    let mut s = BalancingScheduler::new(2);
    let mut t0 = s.spawn_thread();
    // Some queue is empty: round-robin advances the counter to 1, which
    // is not this thread, so the job migrates.
    let d = t0.spawned(&vec![0, 5]);
    assert_eq!(d, Decision::Migrate(1));
    assert_eq!(t0.counter, 1);
    // Next idle placement wraps back to this thread and resumes locally.
    let d = t0.spawned(&vec![0, 5]);
    assert_eq!(d, Decision::Resume);
    assert_eq!(t0.counter, 0);
}

#[test]
fn spawned_targets_shortest_queue_when_all_busy() {
    let mut s = BalancingScheduler::new(3);
    let mut t0 = s.spawn_thread();
    let d = t0.spawned(&vec![4, 2, 3]);
    assert_eq!(d, Decision::Migrate(1));
    let d = t0.spawned(&vec![1, 2, 3]);
    assert_eq!(d, Decision::Resume);
}

#[test]
fn yielding_jobs_park_and_drain_in_reverse_order() {
    let mut s = BalancingScheduler::new(1);
    let mut t0 = s.spawn_thread();
    let mut lengths = vec![0usize];
    assert_eq!(t0.ready(&mut lengths, 7, true), None);
    assert_eq!(t0.ready(&mut lengths, 8, true), None);
    assert_eq!(lengths[0], 2);
    assert_eq!(t0.ready(&mut lengths, 9, false), Some(Decision::Resume));
    assert_eq!(lengths[0], 2);
    let drained = t0.tick(&mut lengths);
    assert_eq!(drained, vec![8, 7]);
    assert_eq!(lengths[0], 0);
    assert_eq!(t0.q.len(), 0);
}

#[test]
fn timeout_is_never_requested() {
    let mut s = BalancingScheduler::new(1);
    let t0 = s.spawn_thread();
    assert_eq!(t0.timeout(), None);
}
