//! The physics domain's frame and its advance: camera integration from
//! the input view delta, player movement along camera-relative world
//! axes, and one step of every animation chain.

use vstd::prelude::*;
use crate::camera::{camera_update_spec, Camera};
use crate::fixed::{
    cos_fp, cos_fp_spec, sat_add_spec, sat_add, sat_neg_spec, sat_neg, sin_fp, sin_fp_spec, Vec2,
    Vec3, ANGLE_FULL_TURN, ANGLE_QUARTER_TURN, TRIG_SCALE,
};
use crate::input_frame::InputFrame;
use crate::inverse_kinematics::{
    copy_vec, new_target_post, update, update_step_post, Axis, Chain, Joint, State, Transition,
};

verus! {

/// Per-tick movement step, in position units: a tenth of a world unit.
pub const MOVE_STEP: i64 = 100;

/// Position units per world unit.
pub const POS_SCALE: i64 = 1000;

/// Seek length handed to a chain that receives a new target.
pub const NUM_TRANSITION_FRAMES: u16 = 180;

/// A solved seek goal for one chain: the target point and the solver's
/// joint angles for it.
pub struct ChainTarget {
    pub target: Vec3,
    pub target_angles: Vec<i64>,
}

/// One committed snapshot of the physics domain.
pub struct PhysicsFrame {
    pub frame_counter: u64,
    pub camera: Camera,
    pub player_position: Vec3,
    pub ik_chains: Vec<Chain>,
    pub light_direction: Vec3,
}

/// The player position after one tick: the movement direction is taken
/// along the camera's flat forward and right axes and scaled by
/// `MOVE_STEP`; height is untouched.
pub open spec fn integrate_position_spec(pos: Vec3, azimuth: int, movement: Vec2) -> Vec3 {
    let fx = cos_fp_spec(azimuth);
    let fz = -sin_fp_spec(azimuth);
    let rx = sin_fp_spec(azimuth);
    let rz = cos_fp_spec(azimuth);
    let dx = (fx * movement.x + rx * movement.y) * MOVE_STEP / (TRIG_SCALE as int);
    let dz = (fz * movement.x + rz * movement.y) * MOVE_STEP / (TRIG_SCALE as int);
    Vec3 {
        x: sat_add_spec(pos.x as int, dx) as i64,
        y: pos.y,
        z: sat_add_spec(pos.z as int, dz) as i64,
    }
}

/// Computes `integrate_position_spec`.
pub fn integrate_position(pos: Vec3, azimuth: i64, movement: Vec2) -> (r: Vec3)
    requires
        0 <= azimuth < ANGLE_FULL_TURN,
        -1 <= movement.x <= 1,
        -1 <= movement.y <= 1,
    ensures
        r == integrate_position_spec(pos, azimuth as int, movement),
{
    let s = TRIG_SCALE;
    let fx = cos_fp(azimuth);
    let fz = -sin_fp(azimuth);
    let rx = sin_fp(azimuth);
    let rz = cos_fp(azimuth);
    assert(-s <= fx * movement.x <= s && -s <= rx * movement.y <= s && -s <= fz * movement.x <= s
        && -s <= rz * movement.y <= s) by (nonlinear_arith)
        requires
            -s <= fx <= s,
            -s <= rx <= s,
            -s <= fz <= s,
            -s <= rz <= s,
            -1 <= movement.x <= 1,
            -1 <= movement.y <= 1,
            s == TRIG_SCALE,
    ;
    let nx = (fx * movement.x + rx * movement.y) * MOVE_STEP;
    let nz = (fz * movement.x + rz * movement.y) * MOVE_STEP;
    proof {
        crate::fixed::lemma_div_shrinks(nx as int, TRIG_SCALE as int);
        crate::fixed::lemma_div_shrinks(nz as int, TRIG_SCALE as int);
    }
    let dx = nx.checked_div_euclid(s).unwrap();
    let dz = nz.checked_div_euclid(s).unwrap();
    Vec3 { x: sat_add(pos.x, dx), y: pos.y, z: sat_add(pos.z, dz) }
}

/// Validity of the target list handed to one physics advance: one entry
/// per chain, and a supplied target carries one in-turn angle per joint.
pub open spec fn targets_wf(targets: Seq<Option<ChainTarget>>, chains: Seq<Chain>) -> bool {
    &&& targets.len() == chains.len()
    &&& (forall|i: int|
        0 <= i < targets.len() ==> (#[trigger] targets[i] matches Option::Some(ct)
            ==> ct.target_angles@.len() == chains[i].joints@.len() && (forall|j: int|
            0 <= j < ct.target_angles@.len() ==> -ANGLE_FULL_TURN
                <= #[trigger] ct.target_angles@[j] <= ANGLE_FULL_TURN)))
}

/// What one physics tick leaves of chain `c` in `r`: a resting chain
/// with a supplied target starts seeking it; every other chain takes a
/// plain update step.
pub open spec fn chain_step_post(c: Chain, target: Option<ChainTarget>, r: Chain) -> bool {
    &&& r.joints@ == c.joints@
    &&& r.position == c.position
    &&& (match target {
        Option::Some(ct) => {
            if c.state is Done {
                new_target_post(c, ct.target, NUM_TRANSITION_FRAMES, ct.target_angles@, r)
            } else {
                update_step_post(c, r)
            }
        },
        Option::None => update_step_post(c, r),
    })
}

impl PhysicsFrame {
    /// A valid physics frame: camera pose in range and chains well
    /// formed.
    pub open spec fn wf(&self) -> bool {
        &&& self.camera.wf()
        &&& (forall|i: int| 0 <= i < self.ik_chains@.len() ==> (#[trigger] self.ik_chains@[i]).wf())
    }

    /// What the physics domain starts from: frame zero.
    pub open spec fn frame_zero_post(f: PhysicsFrame) -> bool {
        &&& f.frame_counter == 0
        &&& f.camera == (Camera { azimuth: 0, elevation: ANGLE_QUARTER_TURN })
        &&& f.player_position == (Vec3 { x: 0, y: POS_SCALE, z: 0 })
        &&& f.light_direction == (Vec3 { x: 400i64, y: -1000i64, z: -600i64 })
        &&& f.ik_chains@.len() == 2
        &&& (forall|i: int| 0 <= i < 2 ==> (#[trigger] f.ik_chains@[i]).state is Done)
        &&& (forall|i: int| 0 <= i < 2 ==> (#[trigger] f.ik_chains@[i]).joints@.len() == 4)
        &&& f.wf()
    }

    /// The frame the physics domain is created with: the player at the
    /// origin, the camera level, and two resting four-joint chains.
    pub fn frame_zero() -> (r: PhysicsFrame)
        ensures
            PhysicsFrame::frame_zero_post(r),
    {
        let mut chains: Vec<Chain> = Vec::new();
        chains.push(frame_zero_chain(-9 * POS_SCALE));
        chains.push(frame_zero_chain(9 * POS_SCALE));
        PhysicsFrame {
            frame_counter: 0,
            camera: Camera { azimuth: 0, elevation: ANGLE_QUARTER_TURN },
            player_position: Vec3 { x: 0, y: POS_SCALE, z: 0 },
            ik_chains: chains,
            light_direction: Vec3 { x: 400, y: -1000, z: -600 },
        }
    }

    /// Pure physics advance. Deterministic: the result is a function of
    /// the previous frame, the input frame read, and the supplied chain
    /// targets alone; the camera integrates the negated view delta with
    /// the elevation clamped into its band, and the player moves along
    /// the new camera's flat axes.
    pub fn new(
        prev: &PhysicsFrame,
        input_frame: &InputFrame,
        targets: &Vec<Option<ChainTarget>>,
    ) -> (r: PhysicsFrame)
        requires
            prev.wf(),
            prev.frame_counter < u64::MAX,
            -1 <= input_frame.movement_delta.x <= 1,
            -1 <= input_frame.movement_delta.y <= 1,
            targets_wf(targets@, prev.ik_chains@),
        ensures
            r.wf(),
            r.frame_counter == prev.frame_counter + 1,
            r.camera == camera_update_spec(
                prev.camera,
                sat_neg_spec(input_frame.view_angles_delta.x as int),
                sat_neg_spec(input_frame.view_angles_delta.y as int),
            ),
            r.player_position == integrate_position_spec(
                prev.player_position,
                r.camera.azimuth as int,
                input_frame.movement_delta,
            ),
            r.light_direction == prev.light_direction,
            r.ik_chains@.len() == prev.ik_chains@.len(),
            forall|i: int|
                0 <= i < r.ik_chains@.len() ==> chain_step_post(
                    prev.ik_chains@[i],
                    targets@[i],
                    #[trigger] r.ik_chains@[i],
                ),
    {
        let camera = prev.camera.update(
            sat_neg(input_frame.view_angles_delta.x),
            sat_neg(input_frame.view_angles_delta.y),
        );
        let player_position = integrate_position(
            prev.player_position,
            camera.azimuth,
            input_frame.movement_delta,
        );
        let mut chains: Vec<Chain> = Vec::new();
        let mut i: usize = 0;
        while i < prev.ik_chains.len()
            invariant
                i <= prev.ik_chains@.len(),
                prev.wf(),
                targets_wf(targets@, prev.ik_chains@),
                chains@.len() == i,
                forall|j: int|
                    0 <= j < i ==> chain_step_post(
                        prev.ik_chains@[j],
                        targets@[j],
                        #[trigger] chains@[j],
                    ),
                forall|j: int| 0 <= j < i ==> (#[trigger] chains@[j]).wf(),
            decreases prev.ik_chains@.len() - i,
        {
            let c = &prev.ik_chains[i];
            let is_done = match c.state {
                State::Done => true,
                _ => false,
            };
            let stepped = match &targets[i] {
                Option::Some(ct) => {
                    if is_done {
                        update(
                            c,
                            Transition::NewTarget {
                                target: ct.target,
                                num_transition_frames: NUM_TRANSITION_FRAMES,
                                target_angles: copy_vec(&ct.target_angles),
                            },
                        )
                    } else {
                        update(c, Transition::Update)
                    }
                },
                Option::None => update(c, Transition::Update),
            };
            chains.push(stepped);
            i = i + 1;
        }
        PhysicsFrame {
            frame_counter: prev.frame_counter + 1,
            camera,
            player_position,
            ik_chains: chains,
            light_direction: prev.light_direction,
        }
    }
}

/// One resting chain of frame zero: an anchor joint turning about the
/// vertical and three bones of three world units turning about `X`,
/// placed at the given sideways offset.
fn frame_zero_chain(z: i64) -> (r: Chain)
    ensures
        r.state is Done,
        r.joints@.len() == 4,
        r.wf(),
{
    let mut joints: Vec<Joint> = Vec::new();
    joints.push(Joint { length: 0, axis: Axis::Y });
    joints.push(Joint { length: 3 * POS_SCALE, axis: Axis::X });
    joints.push(Joint { length: 3 * POS_SCALE, axis: Axis::X });
    joints.push(Joint { length: 3 * POS_SCALE, axis: Axis::X });
    let mut angles: Vec<i64> = Vec::new();
    angles.push(0);
    angles.push(0);
    angles.push(0);
    angles.push(16689);
    Chain {
        joints,
        angles,
        state: State::Done,
        position: Vec3 { x: 59 * POS_SCALE, y: -9 * POS_SCALE, z },
    }
}

} // verus!
