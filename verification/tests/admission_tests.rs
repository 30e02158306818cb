//! Admission control and frame counter behaviour.

use tick_engine::context_state::{ContextState, ContextStateProxy};
use tick_engine::frame_counter::FrameCounter;

#[test]
fn counter_starts_at_value() {
    let c = FrameCounter::new(7);
    assert_eq!(c.get(), 7);
}

#[test]
fn increment_returns_pre_increment_value() {
    let mut c = FrameCounter::new(0);
    assert_eq!(c.increment(), 0);
    assert_eq!(c.increment(), 1);
    assert_eq!(c.get(), 2);
}

#[test]
fn try_acquire_twice_returns_true_then_false() {
    let mut s: ContextState<u32> = ContextState::new(0);
    assert!(s.is_ready());
    assert!(!s.is_ready());
}

#[test]
fn release_reopens_the_gate() {
    let mut s: ContextState<u32> = ContextState::new(0);
    assert!(s.is_ready());
    assert!(!s.is_ready());
    s.release_ready_lock();
    assert!(s.is_ready());
}

#[test]
fn set_frame_replaces_snapshot_whole() {
    let mut s: ContextState<u32> = ContextState::new(5);
    assert_eq!(*s.frame(), 5);
    s.set_frame(9);
    assert_eq!(*s.frame(), 9);
    assert_eq!(s.frame_counter(), 0);
}

#[test]
fn proxy_tick_bracket_counts_and_releases() {
    let mut s: ContextState<u32> = ContextState::new(0);
    assert!(ContextStateProxy::is_ready(&mut s));
    ContextStateProxy::pre_tick(&mut s);
    assert_eq!(s.frame_counter(), 1);
    ContextStateProxy::post_tick(&mut s);
    assert!(ContextStateProxy::is_ready(&mut s));
}
