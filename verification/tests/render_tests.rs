//! Render frame derivation and the FIFO hand-off to the render
//! processor.

use tick_engine::camera::{to_view_direction, Camera};
use tick_engine::fixed::{Vec3, ANGLE_QUARTER_TURN, ELEVATION_MAX, ELEVATION_MIN, TRIG_SCALE};
use tick_engine::physics_frame::PhysicsFrame;
use tick_engine::render_context::{ModelId, RenderContext};
use tick_engine::render_frame::RenderFrame;

#[test]
fn render_frame_derives_from_physics() {
    let p = PhysicsFrame::frame_zero();
    let r = RenderFrame::new(&p);
    assert_eq!(r.id, 0);
    assert_eq!(r.camera, p.camera);
    assert_eq!(r.player_position, p.player_position);
    assert_eq!(
        r.reverse_light_direction,
        Vec3 { x: -400, y: 1000, z: 600 }
    );
}

#[test]
fn draw_list_holds_scene_player_trees_and_chains() {
    let p = PhysicsFrame::frame_zero();
    let r = RenderFrame::new(&p);
    assert_eq!(r.models.len(), 11 + p.ik_chains.len());
    assert_eq!(r.models[0], ModelId::Scene);
    assert_eq!(r.models[1], ModelId::Player);
    for i in 2..11 {
        assert_eq!(r.models[i], ModelId::Tree);
    }
    for i in 11..r.models.len() {
        assert_eq!(r.models[i], ModelId::IKModel);
    }
}

#[test]
fn draw_data_carries_every_chain() {
    let p = PhysicsFrame::frame_zero();
    let r = RenderFrame::new(&p);
    assert_eq!(r.chains.len(), p.ik_chains.len());
    for (d, c) in r.chains.iter().zip(p.ik_chains.iter()) {
        assert_eq!(d.position, c.position);
        assert_eq!(d.angles, c.angles);
        assert_eq!(d.joints.len(), c.joints.len());
        assert!(d.target.is_none());
    }
}

#[test]
fn outbox_hands_frames_out_oldest_first() {
    let mut rc = RenderContext::new((320, 200));
    assert!(rc.take_frame().is_none());
    let mut p = PhysicsFrame::frame_zero();
    rc.tick(&p);
    p.frame_counter = 1;
    rc.tick(&p);
    let first = rc.take_frame().expect("two frames queued");
    let second = rc.take_frame().expect("one frame queued");
    assert_eq!(first.id, 0);
    assert_eq!(second.id, 1);
    assert!(rc.take_frame().is_none());
}

#[test]
fn published_render_frame_tracks_latest_physics() {
    let mut rc = RenderContext::new((320, 200));
    let mut p = PhysicsFrame::frame_zero();
    p.frame_counter = 41;
    rc.tick(&p);
    assert_eq!(rc.state.frame().id, 41);
    assert_eq!(rc.state.frame_counter(), 0);
}

#[test]
fn camera_update_wraps_azimuth_and_clamps_elevation() {
    let c = Camera { azimuth: 0, elevation: ANGLE_QUARTER_TURN };
    let u = c.update(100, 50);
    assert_eq!(u.azimuth, 100);
    assert_eq!(u.elevation, ANGLE_QUARTER_TURN + 50);
    let u = c.update(-1, i64::MAX);
    assert_eq!(u.azimuth, 1048575);
    assert_eq!(u.elevation, ELEVATION_MAX);
    let u = c.update(0, i64::MIN);
    assert_eq!(u.elevation, ELEVATION_MIN);
}

#[test]
fn view_direction_at_level_elevation_points_flat() {
    // Elevation a quarter turn: sine is at full scale, cosine zero, so
    // the direction lies in the horizontal plane along +x.
    let v = to_view_direction(0, ANGLE_QUARTER_TURN);
    assert_eq!(v, Vec3 { x: TRIG_SCALE, y: 0, z: 0 });
    // Azimuth a quarter turn swings the flat direction to -z.
    let v = to_view_direction(ANGLE_QUARTER_TURN, ANGLE_QUARTER_TURN);
    assert_eq!(v, Vec3 { x: 0, y: 0, z: -TRIG_SCALE });
}
