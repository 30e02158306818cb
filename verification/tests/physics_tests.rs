//! Physics integration: the elevation clamp, camera-relative movement,
//! stale-input reuse, and determinism of the advance.

use tick_engine::fixed::{
    Vec2, ANGLE_FULL_TURN, ANGLE_QUARTER_TURN, ELEVATION_MAX, ELEVATION_MIN,
};
use tick_engine::input_event::{InputEvent, KeyCode};
use tick_engine::input_frame::InputFrame;
use tick_engine::physics_context::{no_targets, PhysicsContext};
use tick_engine::physics_frame::{integrate_position, PhysicsFrame};

fn input_after(events: Vec<InputEvent>) -> InputFrame {
    InputFrame::new(&InputFrame::frame_zero(), &events)
}

#[test]
fn frame_zero_is_level_and_at_origin() {
    let p = PhysicsFrame::frame_zero();
    assert_eq!(p.frame_counter, 0);
    assert_eq!(p.camera.azimuth, 0);
    assert_eq!(p.camera.elevation, ANGLE_QUARTER_TURN);
    assert_eq!(p.player_position.x, 0);
    assert_eq!(p.ik_chains.len(), 2);
}

#[test]
fn elevation_never_reaches_the_poles() {
    // A huge upward swing, then a huge downward one: the elevation must
    // stay strictly inside the band however large the accumulated delta.
    let mut pc = PhysicsContext::new();
    for dy in [i64::MIN + 1, i64::MAX, -40_000_000, 40_000_000] {
        let input = input_after(vec![InputEvent::MouseMoved { dx: 0, dy }]);
        let targets = no_targets(pc.get_frame().ik_chains.len());
        pc.tick(&input, &targets);
        let e = pc.get_frame().camera.elevation;
        assert!(e >= ELEVATION_MIN, "elevation {} fell below the band", e);
        assert!(e <= ELEVATION_MAX, "elevation {} rose above the band", e);
        assert!(e > 0 && e < 524288, "elevation {} reached a pole", e);
    }
}

#[test]
fn forward_movement_at_zero_azimuth_steps_along_x() {
    let input = input_after(vec![InputEvent::KeyboardInput { pressed: true, id: KeyCode::W }]);
    let mut pc = PhysicsContext::new();
    let targets = no_targets(pc.get_frame().ik_chains.len());
    let x0 = pc.get_frame().player_position.x;
    pc.tick(&input, &targets);
    let p = pc.get_frame();
    assert_eq!(p.player_position.x, x0 + 100);
    assert_eq!(p.player_position.z, 0);
    assert_eq!(p.player_position.y, 1000);
    assert_eq!(p.frame_counter, 1);
}

#[test]
fn integrate_position_is_exact_at_cardinal_azimuths() {
    let pos = tick_engine::fixed::Vec3 { x: 0, y: 0, z: 0 };
    // Facing along +x: forward moves +x.
    let r = integrate_position(pos, 0, Vec2 { x: 1, y: 0 });
    assert_eq!((r.x, r.y, r.z), (100, 0, 0));
    // Right of +x at azimuth 0 is -z... the right axis is (sin a, 0, cos a).
    let r = integrate_position(pos, 0, Vec2 { x: 0, y: 1 });
    assert_eq!((r.x, r.y, r.z), (0, 0, 100));
    // A quarter turn: forward becomes -z.
    let r = integrate_position(pos, ANGLE_QUARTER_TURN, Vec2 { x: 1, y: 0 });
    assert_eq!((r.x, r.y, r.z), (0, 0, -100));
    // A half turn: forward becomes -x.
    let r = integrate_position(pos, ANGLE_FULL_TURN / 2, Vec2 { x: 1, y: 0 });
    assert_eq!((r.x, r.y, r.z), (-100, 0, 0));
}

#[test]
fn no_input_means_no_movement() {
    let input = input_after(vec![]);
    let mut pc = PhysicsContext::new();
    let targets = no_targets(pc.get_frame().ik_chains.len());
    pc.tick(&input, &targets);
    let p = pc.get_frame();
    assert_eq!(p.player_position.x, 0);
    assert_eq!(p.player_position.z, 0);
}

#[test]
fn physics_reuses_stale_input_frame() {
    // The input frame handed over is whatever was last published; ticking
    // physics twice against the same (stale) input frame advances physics
    // twice without ever waiting on input.
    let stale = input_after(vec![InputEvent::KeyboardInput { pressed: true, id: KeyCode::W }]);
    let mut pc = PhysicsContext::new();
    let targets = no_targets(pc.get_frame().ik_chains.len());
    pc.tick(&stale, &targets);
    pc.tick(&stale, &targets);
    let p = pc.get_frame();
    assert_eq!(p.frame_counter, 2);
    assert_eq!(p.player_position.x, 200);
}

#[test]
fn replaying_identical_inputs_gives_identical_physics_frames() {
    let input = input_after(vec![
        InputEvent::KeyboardInput { pressed: true, id: KeyCode::W },
        InputEvent::MouseMoved { dx: 1234, dy: -777 },
    ]);
    let mut a = PhysicsContext::new();
    let mut b = PhysicsContext::new();
    for _ in 0..3 {
        let ta = no_targets(a.get_frame().ik_chains.len());
        a.tick(&input, &ta);
        let tb = no_targets(b.get_frame().ik_chains.len());
        b.tick(&input, &tb);
    }
    let fa = a.get_frame();
    let fb = b.get_frame();
    assert_eq!(fa.frame_counter, fb.frame_counter);
    assert_eq!(fa.camera, fb.camera);
    assert_eq!(fa.player_position, fb.player_position);
    assert_eq!(fa.light_direction, fb.light_direction);
    assert_eq!(fa.ik_chains.len(), fb.ik_chains.len());
    for (ca, cb) in fa.ik_chains.iter().zip(fb.ik_chains.iter()) {
        assert_eq!(ca.angles, cb.angles);
        assert_eq!(ca.position, cb.position);
    }
}

#[test]
fn view_delta_turns_the_camera_by_its_negation() {
    let input = input_after(vec![InputEvent::MouseMoved { dx: -100, dy: 0 }]);
    let mut pc = PhysicsContext::new();
    let targets = no_targets(pc.get_frame().ik_chains.len());
    pc.tick(&input, &targets);
    assert_eq!(pc.get_frame().camera.azimuth, 100);
}
