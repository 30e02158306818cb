//! The animation-chain state machine the physics domain advances once
//! per tick: a chain either rests (`Done`), interpolates its joint
//! angles toward solver-supplied target angles (`Seeking`), or holds the
//! reached pose for a fixed number of ticks (`Waiting`).
//!
//! Solving for target angles is the external solver's job; this module
//! takes the solved angles as plain values and advances the machine
//! deterministically in fixed-point arithmetic.

use vstd::prelude::*;
use crate::fixed::{
    clamp_spec, clamp_i64, wrap_angle_spec, wrap_angle, Vec3, ANGLE_FULL_TURN, ANGLE_HALF_TURN,
    TRIG_SCALE,
};

verus! {

/// The rotation axis of one joint.
#[derive(Clone, Copy, PartialEq, Eq, Structural, Debug)]
pub enum Axis {
    X,
    Y,
    Z,
}

impl Axis {
    /// The unit vector of the axis, in `TRIG_SCALE` units.
    pub fn to_vector3(&self) -> (r: Vec3)
        ensures
            r == axis_vector_spec(*self),
    {
        match *self {
            Axis::X => Vec3 { x: TRIG_SCALE, y: 0, z: 0 },
            Axis::Y => Vec3 { x: 0, y: TRIG_SCALE, z: 0 },
            Axis::Z => Vec3 { x: 0, y: 0, z: TRIG_SCALE },
        }
    }
}

/// The unit vector of an axis, in `TRIG_SCALE` units.
pub open spec fn axis_vector_spec(a: Axis) -> Vec3 {
    match a {
        Axis::X => Vec3 { x: TRIG_SCALE, y: 0, z: 0 },
        Axis::Y => Vec3 { x: 0, y: TRIG_SCALE, z: 0 },
        Axis::Z => Vec3 { x: 0, y: 0, z: TRIG_SCALE },
    }
}

/// One joint: a bone length (position units) and its rotation axis.
#[derive(Clone, Copy, PartialEq, Eq, Structural, Debug)]
pub struct Joint {
    pub length: i64,
    pub axis: Axis,
}

/// Where a chain is in its seek-wait-rest cycle.
pub enum State {
    Seeking {
        base_angles: Vec<i64>,
        target_angles: Vec<i64>,
        frames_to_wait: u16,
        num_transition_frames: u16,
        current_frame: u16,
        target: Vec3,
    },
    Waiting { target: Vec3, frames_to_wait: u16 },
    Done,
}

/// What the physics tick asks of a chain: either plain advancement, or
/// the start of a seek toward freshly solved target angles.
pub enum Transition {
    NewTarget { target: Vec3, num_transition_frames: u16, target_angles: Vec<i64> },
    Update,
}

/// Recursion measure of `update`: starting a seek advances its first
/// frame through one plain update.
pub open spec fn transition_rank(t: Transition) -> int {
    match t {
        Transition::NewTarget { .. } => 1,
        Transition::Update => 0,
    }
}

/// An articulated chain: joints, their current angles, its seek state,
/// and its anchor position in the world.
pub struct Chain {
    pub joints: Vec<Joint>,
    pub angles: Vec<i64>,
    pub state: State,
    pub position: Vec3,
}

/// Every angle within the working band of one turn on either side.
pub open spec fn angles_bounded(s: Seq<i64>) -> bool {
    forall|i: int|
        0 <= i < s.len() ==> -ANGLE_FULL_TURN <= #[trigger] s[i] <= 2 * ANGLE_FULL_TURN
}

/// Every angle reduced onto one full turn.
pub open spec fn angles_in_turn(s: Seq<i64>) -> bool {
    forall|i: int| 0 <= i < s.len() ==> 0 <= #[trigger] s[i] < ANGLE_FULL_TURN
}

/// Every target angle within half a turn of its base angle, so a seek
/// always takes the short way round.
pub open spec fn targets_near(base: Seq<i64>, target: Seq<i64>) -> bool {
    forall|i: int|
        0 <= i < base.len() ==> -ANGLE_HALF_TURN <= #[trigger] target[i] - base[i]
            <= ANGLE_HALF_TURN
}

/// Validity of a seek state for a chain of `n` joints.
pub open spec fn state_wf(s: State, n: int) -> bool {
    match s {
        State::Seeking {
            base_angles,
            target_angles,
            num_transition_frames,
            current_frame,
            ..
        } => {
            &&& base_angles@.len() == n
            &&& target_angles@.len() == n
            &&& angles_in_turn(base_angles@)
            &&& targets_near(base_angles@, target_angles@)
            &&& num_transition_frames > 0
            &&& current_frame < num_transition_frames
        },
        State::Waiting { .. } => true,
        State::Done => true,
    }
}

impl Chain {
    pub open spec fn wf(&self) -> bool {
        &&& self.angles@.len() == self.joints@.len()
        &&& angles_bounded(self.angles@)
        &&& state_wf(self.state, self.joints@.len() as int)
    }
}

/// The interpolated angle after `step` of `num` seek frames, clamped
/// into the working band.
pub open spec fn lerp_angle_spec(base: int, target: int, step: int, num: int) -> int {
    clamp_spec(
        base + (target - base) * step / num,
        -ANGLE_FULL_TURN as int,
        2 * ANGLE_FULL_TURN as int,
    )
}

/// A solved target angle re-expressed within half a turn of its base.
pub open spec fn near_angle_spec(base: int, target: int) -> int {
    base + wrap_angle_spec(target - base + ANGLE_HALF_TURN) - ANGLE_HALF_TURN
}

/// Copies a vector of copyable elements.
pub(crate) fn copy_vec<T: Copy>(v: &Vec<T>) -> (r: Vec<T>)
    ensures
        r@ == v@,
{
    let mut r: Vec<T> = Vec::new();
    let mut i: usize = 0;
    while i < v.len()
        invariant
            i <= v.len(),
            r@ == v@.take(i as int),
        decreases v.len() - i,
    {
        r.push(v[i]);
        proof {
            assert(v@.take(i as int).push(v@[i as int]) =~= v@.take(i as int + 1));
        }
        i = i + 1;
    }
    proof {
        assert(v@.take(v@.len() as int) =~= v@);
    }
    r
}

/// Interpolated angles after `step` of `num` seek frames.
fn lerp_angles(base: &Vec<i64>, target: &Vec<i64>, step: u32, num: u32) -> (r: Vec<i64>)
    requires
        base@.len() == target@.len(),
        angles_in_turn(base@),
        targets_near(base@, target@),
        0 < num <= 65535,
        step <= 65536,
    ensures
        r@.len() == base@.len(),
        forall|i: int|
            0 <= i < r@.len() ==> #[trigger] r@[i] as int == lerp_angle_spec(
                base@[i] as int,
                target@[i] as int,
                step as int,
                num as int,
            ),
        angles_bounded(r@),
{
    let mut r: Vec<i64> = Vec::new();
    let mut i: usize = 0;
    while i < base.len()
        invariant
            i <= base@.len(),
            base@.len() == target@.len(),
            angles_in_turn(base@),
            targets_near(base@, target@),
            0 < num <= 65535,
            step <= 65536,
            r@.len() == i,
            forall|j: int|
                0 <= j < i ==> #[trigger] r@[j] as int == lerp_angle_spec(
                    base@[j] as int,
                    target@[j] as int,
                    step as int,
                    num as int,
                ),
        decreases base@.len() - i,
    {
        let b = base[i];
        let t = target[i];
        assert(0 <= b < ANGLE_FULL_TURN);
        assert(-ANGLE_HALF_TURN <= t - b <= ANGLE_HALF_TURN);
        let diff = t - b;
        assert(-(ANGLE_HALF_TURN * 65536) <= diff * (step as i64) <= ANGLE_HALF_TURN * 65536)
            by (nonlinear_arith)
            requires
                -ANGLE_HALF_TURN <= diff <= ANGLE_HALF_TURN,
                0 <= step <= 65536,
        ;
        let scaled = diff * (step as i64);
        proof {
            crate::fixed::lemma_div_shrinks(scaled as int, num as int);
        }
        let q = scaled.checked_div_euclid(num as i64).unwrap();
        let raw = b + q;
        let a = clamp_i64(raw, -ANGLE_FULL_TURN, 2 * ANGLE_FULL_TURN);
        r.push(a);
        i = i + 1;
    }
    r
}

/// Re-expresses solved target angles within half a turn of the current
/// (wrapped) angles, and returns the wrapped bases alongside.
fn near_angles(current: &Vec<i64>, target: &Vec<i64>) -> (r: (Vec<i64>, Vec<i64>))
    requires
        current@.len() == target@.len(),
        forall|i: int|
            0 <= i < target@.len() ==> -ANGLE_FULL_TURN <= #[trigger] target@[i]
                <= ANGLE_FULL_TURN,
    ensures
        r.0@.len() == current@.len(),
        r.1@.len() == current@.len(),
        forall|i: int|
            0 <= i < r.0@.len() ==> #[trigger] r.0@[i] as int == wrap_angle_spec(
                current@[i] as int,
            ),
        forall|i: int|
            0 <= i < r.1@.len() ==> #[trigger] r.1@[i] as int == near_angle_spec(
                wrap_angle_spec(current@[i] as int),
                target@[i] as int,
            ),
        angles_in_turn(r.0@),
        targets_near(r.0@, r.1@),
{
    let mut bases: Vec<i64> = Vec::new();
    let mut nears: Vec<i64> = Vec::new();
    let mut i: usize = 0;
    while i < current.len()
        invariant
            i <= current@.len(),
            current@.len() == target@.len(),
            forall|j: int|
                0 <= j < target@.len() ==> -ANGLE_FULL_TURN <= #[trigger] target@[j]
                    <= ANGLE_FULL_TURN,
            bases@.len() == i,
            nears@.len() == i,
            forall|j: int|
                0 <= j < i ==> #[trigger] bases@[j] as int == wrap_angle_spec(
                    current@[j] as int,
                ),
            forall|j: int|
                0 <= j < i ==> #[trigger] nears@[j] as int == near_angle_spec(
                    wrap_angle_spec(current@[j] as int),
                    target@[j] as int,
                ),
            angles_in_turn(bases@),
            targets_near(bases@, nears@),
        decreases current@.len() - i,
    {
        let b = wrap_angle(current[i]);
        let t = target[i];
        let shifted = wrap_angle(t - b + ANGLE_HALF_TURN);
        let near = b + shifted - ANGLE_HALF_TURN;
        bases.push(b);
        nears.push(near);
        i = i + 1;
    }
    (bases, nears)
}

/// What one plain `Update` step leaves of a chain `c` in result `r`.
pub open spec fn update_step_post(c: Chain, r: Chain) -> bool {
    match c.state {
        State::Done => r.angles@ == c.angles@ && r.state is Done,
        State::Waiting { target, frames_to_wait } => r.angles@ == c.angles@ && (if frames_to_wait
            == 0 {
            r.state is Done
        } else {
            r.state == (State::Waiting { target, frames_to_wait: (frames_to_wait - 1) as u16 })
        }),
        State::Seeking {
            base_angles,
            target_angles,
            frames_to_wait,
            num_transition_frames,
            current_frame,
            target,
        } => {
            let step = current_frame + 2;
            &&& r.angles@.len() == c.angles@.len()
            &&& (forall|i: int|
                0 <= i < r.angles@.len() ==> #[trigger] r.angles@[i] as int == lerp_angle_spec(
                    base_angles@[i] as int,
                    target_angles@[i] as int,
                    step as int,
                    num_transition_frames as int,
                ))
            &&& (if current_frame + 1 == num_transition_frames {
                r.state == (State::Waiting { target, frames_to_wait })
            } else {
                r.state matches State::Seeking {
                    base_angles: b2,
                    target_angles: t2,
                    frames_to_wait: w2,
                    num_transition_frames: n2,
                    current_frame: c2,
                    target: g2,
                } && b2@ == base_angles@ && t2@ == target_angles@ && w2 == frames_to_wait && n2
                    == num_transition_frames && c2 == current_frame + 1 && g2 == target
            })
        },
    }
}

/// What a `NewTarget` transition toward `target`/`tangles` over `num`
/// frames leaves of a chain `c` in result `r`.
pub open spec fn new_target_post(
    c: Chain,
    target: Vec3,
    num: u16,
    tangles: Seq<i64>,
    r: Chain,
) -> bool {
    &&& r.angles@.len() == c.angles@.len()
    &&& (forall|i: int|
        0 <= i < r.angles@.len() ==> #[trigger] r.angles@[i] as int == lerp_angle_spec(
            wrap_angle_spec(c.angles@[i] as int),
            near_angle_spec(wrap_angle_spec(c.angles@[i] as int), tangles[i] as int),
            2,
            num as int,
        ))
    &&& (if num == 1 {
        r.state == (State::Waiting { target, frames_to_wait: 60u16 })
    } else {
        r.state matches State::Seeking {
            base_angles: b2,
            target_angles: t2,
            frames_to_wait: w2,
            num_transition_frames: n2,
            current_frame: c2,
            target: g2,
        } && b2@.len() == c.angles@.len() && t2@.len() == c.angles@.len() && (forall|i: int|
            0 <= i < b2@.len() ==> #[trigger] b2@[i] as int == wrap_angle_spec(c.angles@[i] as int))
            && (forall|i: int|
            0 <= i < t2@.len() ==> #[trigger] t2@[i] as int == near_angle_spec(
                wrap_angle_spec(c.angles@[i] as int),
                tangles[i] as int,
            )) && w2 == 60 && n2 == num && c2 == 1 && g2 == target
    })
}

/// Validity of a `NewTarget` transition for chain `c`: one solved angle
/// per joint, each within one turn of zero, over at least one frame.
pub open spec fn transition_wf(t: Transition, c: Chain) -> bool {
    t matches Transition::NewTarget { target_angles, num_transition_frames, .. }
        ==> target_angles@.len() == c.joints@.len() && num_transition_frames > 0 && (forall|i: int|
        0 <= i < target_angles@.len() ==> -ANGLE_FULL_TURN <= #[trigger] target_angles@[i]
            <= ANGLE_FULL_TURN)
}

/// Advances a chain one tick. `Update` interpolates a seeking chain one
/// frame further, counts a waiting chain down, and leaves a resting
/// chain unchanged; `NewTarget` starts a seek toward solver-supplied
/// target angles and immediately advances its first frame.
pub fn update(chain: &Chain, transition: Transition) -> (r: Chain)
    requires
        chain.wf(),
        transition_wf(transition, *chain),
    ensures
        r.wf(),
        r.joints@ == chain.joints@,
        r.position == chain.position,
        transition is Update ==> update_step_post(*chain, r),
        transition matches Transition::NewTarget { target, num_transition_frames, target_angles }
            ==> new_target_post(*chain, target, num_transition_frames, target_angles@, r),
    decreases transition_rank(transition),
{
    match transition {
        Transition::Update => {
            match &chain.state {
                State::Done => Chain {
                    joints: copy_vec(&chain.joints),
                    angles: copy_vec(&chain.angles),
                    state: State::Done,
                    position: chain.position,
                },
                State::Waiting { target, frames_to_wait } => Chain {
                    joints: copy_vec(&chain.joints),
                    angles: copy_vec(&chain.angles),
                    state: if *frames_to_wait == 0 {
                        State::Done
                    } else {
                        State::Waiting { target: *target, frames_to_wait: *frames_to_wait - 1 }
                    },
                    position: chain.position,
                },
                State::Seeking {
                    base_angles,
                    target_angles,
                    frames_to_wait,
                    num_transition_frames,
                    current_frame,
                    target,
                } => {
                    let new_current = *current_frame + 1;
                    let angles = lerp_angles(
                        base_angles,
                        target_angles,
                        new_current as u32 + 1,
                        *num_transition_frames as u32,
                    );
                    let state = if new_current == *num_transition_frames {
                        State::Waiting { target: *target, frames_to_wait: *frames_to_wait }
                    } else {
                        State::Seeking {
                            base_angles: copy_vec(base_angles),
                            target_angles: copy_vec(target_angles),
                            frames_to_wait: *frames_to_wait,
                            num_transition_frames: *num_transition_frames,
                            current_frame: new_current,
                            target: *target,
                        }
                    };
                    Chain {
                        joints: copy_vec(&chain.joints),
                        angles,
                        state,
                        position: chain.position,
                    }
                },
            }
        },
        Transition::NewTarget { target, num_transition_frames, target_angles } => {
            let (bases, nears) = near_angles(&chain.angles, &target_angles);
            let staged = Chain {
                joints: copy_vec(&chain.joints),
                angles: copy_vec(&chain.angles),
                state: State::Seeking {
                    base_angles: bases,
                    target_angles: nears,
                    frames_to_wait: 60,
                    num_transition_frames,
                    current_frame: 0,
                    target,
                },
                position: chain.position,
            };
            update(&staged, Transition::Update)
        },
    }
}

} // verus!
