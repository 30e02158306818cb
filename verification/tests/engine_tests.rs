//! End-to-end scheduler scenarios over a simulated clock.

use tick_engine::context::DomainId;
use tick_engine::game_loop::GameLoop;
use tick_engine::input_event::{InputEvent, KeyCode};

const MS: u64 = 1_000_000;

fn drain(g: &mut GameLoop) {
    while g.run_next_job() {}
}

#[test]
fn input_counts_120_ticks_in_one_simulated_second_with_no_events() {
    let mut g = GameLoop::new(0, (800, 600));
    for ms in 1..=1000u64 {
        g.sweep(ms * MS);
        drain(&mut g);
        let f = g.registry.input.state.frame();
        assert_eq!(f.movement_delta.x, 0);
        assert_eq!(f.movement_delta.y, 0);
    }
    assert_eq!(g.registry.input.state.frame_counter(), 120);
    assert_eq!(g.registry.input.state.frame().frame_counter, 120);
}

#[test]
fn frequencies_decouple_input_120_render_60() {
    let mut g = GameLoop::new(0, (800, 600));
    for ms in 1..=1000u64 {
        g.sweep(ms * MS);
        drain(&mut g);
    }
    assert_eq!(g.registry.input.state.frame_counter(), 120);
    assert_eq!(g.registry.physics.state.frame_counter(), 120);
    assert_eq!(g.registry.render.state.frame_counter(), 60);
}

#[test]
fn per_domain_ticks_never_overlap() {
    // The instrumented check of the admission gate: at every point the
    // job queue holds at most one job per domain.
    let mut g = GameLoop::new(0, (800, 600));
    for ms in 1..=1000u64 {
        g.sweep(ms * MS);
        let mut counts = [0usize; 3];
        for _ in 0..g.pending_jobs() {
            // Jobs run one at a time; count by observing which domain's
            // generation advanced.
            let before = [
                g.registry.input.state.frame_counter(),
                g.registry.physics.state.frame_counter(),
                g.registry.render.state.frame_counter(),
            ];
            assert!(g.run_next_job());
            let after = [
                g.registry.input.state.frame_counter(),
                g.registry.physics.state.frame_counter(),
                g.registry.render.state.frame_counter(),
            ];
            for d in 0..3 {
                if after[d] != before[d] {
                    assert_eq!(after[d], before[d] + 1);
                    counts[d] += 1;
                }
            }
        }
        assert!(counts[0] <= 1 && counts[1] <= 1 && counts[2] <= 1);
    }
}

#[test]
fn counters_increase_by_exactly_one_per_published_frame() {
    let mut g = GameLoop::new(0, (800, 600));
    let mut last_seen = 0u64;
    for ms in 1..=200u64 {
        g.sweep(ms * MS);
        drain(&mut g);
        let c = g.registry.input.state.frame().frame_counter;
        assert!(c == last_seen || c == last_seen + 1);
        last_seen = c;
    }
    assert!(last_seen > 0);
}

#[test]
fn busy_input_is_skipped_not_waited_on() {
    let mut g = GameLoop::new(0, (800, 600));
    // Hold the input domain's gate, as a stuck input tick would.
    assert!(g.registry.input.state.is_ready());
    g.sweep(20 * MS);
    // Physics and render were admitted; input was skipped.
    assert_eq!(g.pending_jobs(), 2);
    drain(&mut g);
    assert_eq!(g.registry.input.state.frame_counter(), 0);
    assert_eq!(g.registry.physics.state.frame_counter(), 1);
    // Physics consumed the last published (stale) input frame.
    assert_eq!(g.registry.input.state.frame().frame_counter, 0);
    g.registry.input.state.release_ready_lock();
    g.sweep(40 * MS);
    drain(&mut g);
    assert_eq!(g.registry.input.state.frame_counter(), 1);
}

#[test]
fn quit_event_latches_exit_and_stops_admission() {
    let mut g = GameLoop::new(0, (800, 600));
    g.registry.input.post_input_events(vec![InputEvent::Quit]);
    g.sweep(20 * MS);
    drain(&mut g);
    assert!(g.exit);
    g.sweep(1000 * MS);
    assert_eq!(g.pending_jobs(), 0);
}

#[test]
fn events_flow_through_the_whole_pipeline() {
    let mut g = GameLoop::new(0, (800, 600));
    g.registry.input.post_input_events(vec![InputEvent::KeyboardInput {
        pressed: true,
        id: KeyCode::W,
    }]);
    for ms in 1..=100u64 {
        g.sweep(ms * MS);
        drain(&mut g);
    }
    assert!(g.registry.input.state.frame().keyboard_state.forward);
    assert!(g.registry.physics.state.frame().player_position.x > 0);
    // The render outbox carries frames derived from physics.
    let first = g.registry.render.take_frame().expect("outbox empty");
    assert_eq!(first.models[0], tick_engine::render_context::ModelId::Scene);
}

#[test]
fn replaying_a_session_reproduces_every_frame() {
    // The identical ordered event schedule against the identical
    // simulated clock reproduces the run bit for bit.
    let run = |_: ()| {
        let mut g = GameLoop::new(0, (800, 600));
        for ms in 1..=500u64 {
            if ms == 30 {
                g.registry.input.post_input_events(vec![
                    InputEvent::KeyboardInput { pressed: true, id: KeyCode::W },
                    InputEvent::MouseMoved { dx: 11, dy: -7 },
                ]);
            }
            if ms == 200 {
                g.registry.input.post_input_events(vec![InputEvent::KeyboardInput {
                    pressed: false,
                    id: KeyCode::W,
                }]);
            }
            g.sweep(ms * MS);
            drain(&mut g);
        }
        g
    };
    let a = run(());
    let b = run(());
    assert_eq!(*a.registry.input.state.frame(), *b.registry.input.state.frame());
    let pa = a.registry.physics.state.frame();
    let pb = b.registry.physics.state.frame();
    assert_eq!(pa.frame_counter, pb.frame_counter);
    assert_eq!(pa.camera, pb.camera);
    assert_eq!(pa.player_position, pb.player_position);
    for (ca, cb) in pa.ik_chains.iter().zip(pb.ik_chains.iter()) {
        assert_eq!(ca.angles, cb.angles);
    }
    assert_eq!(a.registry.render.state.frame().id, b.registry.render.state.frame().id);
}

#[test]
fn run_next_job_on_empty_queue_does_nothing() {
    let mut g = GameLoop::new(0, (800, 600));
    assert!(!g.run_next_job());
    assert_eq!(g.registry.input.state.frame_counter(), 0);
}

#[test]
fn request_exit_stops_admission_but_drains_jobs() {
    let mut g = GameLoop::new(0, (800, 600));
    g.sweep(20 * MS);
    let pending = g.pending_jobs();
    assert!(pending > 0);
    g.request_exit();
    g.sweep(40 * MS);
    assert_eq!(g.pending_jobs(), pending);
    drain(&mut g);
    assert_eq!(g.pending_jobs(), 0);
}

#[test]
fn registry_accessors_expose_the_three_domains() {
    let g = GameLoop::new(0, (640, 480));
    assert_eq!(g.registry.len(), 3);
    assert_eq!(g.registry.context_input().frequency(), 120);
    assert_eq!(g.registry.context_physics().frequency(), 120);
    assert_eq!(g.registry.context_render().frequency(), 60);
    assert_eq!(g.registry.context_render().get_window_size(), (640, 480));
    let _ = DomainId::Input;
}
