//! The animation-chain state machine: seek, wait, rest.

use tick_engine::fixed::Vec3;
use tick_engine::inverse_kinematics::{update, Axis, Chain, Joint, State, Transition};

fn one_joint_chain() -> Chain {
    Chain {
        joints: vec![Joint { length: 1000, axis: Axis::X }],
        angles: vec![0],
        state: State::Done,
        position: Vec3 { x: 0, y: 0, z: 0 },
    }
}

fn origin() -> Vec3 {
    Vec3 { x: 0, y: 0, z: 0 }
}

#[test]
fn resting_chain_stays_done_on_update() {
    let c = one_joint_chain();
    let r = update(&c, Transition::Update);
    assert!(matches!(r.state, State::Done));
    assert_eq!(r.angles, vec![0]);
    assert_eq!(r.joints.len(), 1);
}

#[test]
fn new_target_starts_seeking_and_advances_one_frame() {
    let c = one_joint_chain();
    let r = update(
        &c,
        Transition::NewTarget {
            target: origin(),
            num_transition_frames: 10,
            target_angles: vec![1000],
        },
    );
    // The first seek frame interpolates two of ten steps: 1000 * 2 / 10.
    assert_eq!(r.angles, vec![200]);
    match &r.state {
        State::Seeking { current_frame, num_transition_frames, frames_to_wait, .. } => {
            assert_eq!(*current_frame, 1);
            assert_eq!(*num_transition_frames, 10);
            assert_eq!(*frames_to_wait, 60);
        },
        _ => panic!("expected a seeking chain"),
    }
}

#[test]
fn seek_completes_into_waiting_then_done() {
    let c = one_joint_chain();
    let mut r = update(
        &c,
        Transition::NewTarget {
            target: origin(),
            num_transition_frames: 10,
            target_angles: vec![1000],
        },
    );
    // Nine further updates complete the ten seek frames.
    for _ in 0..9 {
        assert!(matches!(r.state, State::Seeking { .. }));
        r = update(&r, Transition::Update);
    }
    match &r.state {
        State::Waiting { frames_to_wait, .. } => assert_eq!(*frames_to_wait, 60),
        _ => panic!("expected a waiting chain"),
    }
    // The wait counts down 60 to 0, then the next update rests the chain.
    for _ in 0..61 {
        assert!(matches!(r.state, State::Waiting { .. }));
        r = update(&r, Transition::Update);
    }
    assert!(matches!(r.state, State::Done));
}

#[test]
fn target_angles_take_the_short_way_round() {
    // A target just under a full turn is reached by turning backwards a
    // little, not forwards almost a whole turn.
    let c = one_joint_chain();
    let r = update(
        &c,
        Transition::NewTarget {
            target: origin(),
            num_transition_frames: 2,
            target_angles: vec![1048576 - 1000],
        },
    );
    match &r.state {
        State::Seeking { target_angles, .. } => assert_eq!(*target_angles, vec![-1000]),
        _ => panic!("expected a seeking chain"),
    }
}

#[test]
fn axis_unit_vectors() {
    assert_eq!(Axis::X.to_vector3(), Vec3 { x: 65536, y: 0, z: 0 });
    assert_eq!(Axis::Y.to_vector3(), Vec3 { x: 0, y: 65536, z: 0 });
    assert_eq!(Axis::Z.to_vector3(), Vec3 { x: 0, y: 0, z: 65536 });
}
