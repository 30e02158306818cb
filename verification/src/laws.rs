//! The library's laws: properties that relate several operations, stated
//! once and proved from the contracts the operations themselves carry.

use vstd::prelude::*;
use crate::camera::{camera_update_spec, Camera};
use crate::context::DomainId;
use crate::fixed::{ANGLE_HALF_TURN, ELEVATION_MAX, ELEVATION_MIN};
use crate::game_loop::{run_post, GameLoop};
use crate::input_event::{InputEvent, KeyCode};
use crate::input_frame::{
    apply_event_spec, fold_keyboard_spec, input_advance_spec, InputFrame, KeyboardState,
};
use crate::inverse_kinematics::update_step_post;
use crate::physics_frame::{chain_step_post, integrate_position_spec, PhysicsFrame};

verus! {

/// The state of one key after a drain: the `pressed` value of its last
/// transition in the drain, or the prior state if it never appears.
pub open spec fn net_key_spec(prior: bool, events: Seq<InputEvent>, id: KeyCode) -> bool
    decreases events.len(),
{
    if events.len() == 0 {
        prior
    } else {
        let next = match events[0] {
            InputEvent::KeyboardInput { pressed, id: k } => if k == id {
                pressed
            } else {
                prior
            },
            _ => prior,
        };
        net_key_spec(next, events.drop_first(), id)
    }
}

/// Folding a drain is a *net* operation: each key's folded state is the
/// state after its last transition within the drain, not a running log.
pub proof fn lemma_fold_reflects_net_state(kb: KeyboardState, events: Seq<InputEvent>)
    ensures
        fold_keyboard_spec(kb, events) == (KeyboardState {
            forward: net_key_spec(kb.forward, events, KeyCode::W),
            backward: net_key_spec(kb.backward, events, KeyCode::S),
            right: net_key_spec(kb.right, events, KeyCode::D),
            left: net_key_spec(kb.left, events, KeyCode::A),
        }),
    decreases events.len(),
{
    if events.len() > 0 {
        lemma_fold_reflects_net_state(apply_event_spec(kb, events[0]), events.drop_first());
    }
}

/// Same-tick order independence: two drains that leave every key with
/// the same net state fold to the same held-key record, whatever the
/// order of the events inside each drain.
pub proof fn lemma_same_net_same_fold(
    kb: KeyboardState,
    events1: Seq<InputEvent>,
    events2: Seq<InputEvent>,
)
    requires
        net_key_spec(kb.forward, events1, KeyCode::W) == net_key_spec(
            kb.forward,
            events2,
            KeyCode::W,
        ),
        net_key_spec(kb.backward, events1, KeyCode::S) == net_key_spec(
            kb.backward,
            events2,
            KeyCode::S,
        ),
        net_key_spec(kb.right, events1, KeyCode::D) == net_key_spec(
            kb.right,
            events2,
            KeyCode::D,
        ),
        net_key_spec(kb.left, events1, KeyCode::A) == net_key_spec(kb.left, events2, KeyCode::A),
    ensures
        fold_keyboard_spec(kb, events1) == fold_keyboard_spec(kb, events2),
{
    lemma_fold_reflects_net_state(kb, events1);
    lemma_fold_reflects_net_state(kb, events2);
}

/// Determinism of the input advance: identical previous frames and
/// identical ordered event sequences yield identical new frames.
pub proof fn lemma_input_advance_deterministic(
    prev1: InputFrame,
    prev2: InputFrame,
    events1: Seq<InputEvent>,
    events2: Seq<InputEvent>,
)
    requires
        prev1 == prev2,
        events1 == events2,
    ensures
        input_advance_spec(prev1, events1) == input_advance_spec(prev2, events2),
{
}

/// Determinism of the physics advance: two frames that both satisfy the
/// physics tick's contract against the same previous frame and the same
/// input frame agree on every field, the chains' angles included.
pub proof fn lemma_physics_step_deterministic(
    prev: PhysicsFrame,
    read: InputFrame,
    r1: PhysicsFrame,
    r2: PhysicsFrame,
)
    requires
        physics_step_post(prev, read, r1),
        physics_step_post(prev, read, r2),
    ensures
        r1.frame_counter == r2.frame_counter,
        r1.camera == r2.camera,
        r1.player_position == r2.player_position,
        r1.light_direction == r2.light_direction,
        r1.ik_chains@.len() == r2.ik_chains@.len(),
        forall|i: int|
            0 <= i < r1.ik_chains@.len() ==> (#[trigger] r1.ik_chains@[i]).angles@
                == r2.ik_chains@[i].angles@,
{
    assert forall|i: int|
        0 <= i < r1.ik_chains@.len() implies (#[trigger] r1.ik_chains@[i]).angles@
        == r2.ik_chains@[i].angles@ by {
        let c = prev.ik_chains@[i];
        let a1 = r1.ik_chains@[i];
        let a2 = r2.ik_chains@[i];
        assert(update_step_post(c, a1));
        assert(update_step_post(c, a2));
        match c.state {
            crate::inverse_kinematics::State::Done => {
                assert(a1.angles@ == c.angles@);
            },
            crate::inverse_kinematics::State::Waiting { .. } => {
                assert(a1.angles@ == c.angles@);
            },
            crate::inverse_kinematics::State::Seeking { .. } => {
                assert(a1.angles@ =~= a2.angles@);
            },
        }
    }
}

/// The physics clause of one engine tick, as a predicate of the frames
/// alone: what `GameLoop::run_next_job` guarantees of a physics job.
pub open spec fn physics_step_post(prev: PhysicsFrame, read: InputFrame, r: PhysicsFrame) -> bool {
    &&& r.frame_counter == prev.frame_counter + 1
    &&& r.camera == camera_update_spec(
        prev.camera,
        crate::fixed::sat_neg_spec(read.view_angles_delta.x as int),
        crate::fixed::sat_neg_spec(read.view_angles_delta.y as int),
    )
    &&& r.player_position == integrate_position_spec(
        prev.player_position,
        r.camera.azimuth as int,
        read.movement_delta,
    )
    &&& r.light_direction == prev.light_direction
    &&& r.ik_chains@.len() == prev.ik_chains@.len()
    &&& (forall|i: int|
        0 <= i < r.ik_chains@.len() ==> chain_step_post(
            prev.ik_chains@[i],
            Option::None,
            #[trigger] r.ik_chains@[i],
        ))
}

/// A physics job run by the engine satisfies exactly the physics step
/// predicate, against the input frame that was published when it ran.
pub proof fn lemma_run_physics_is_step(pre: GameLoop, post: GameLoop, ran: bool)
    requires
        run_post(pre, post, ran),
        pre.jobs@.len() > 0,
        pre.jobs@[0] == DomainId::Physics,
    ensures
        physics_step_post(
            pre.registry.physics.state.spec_frame(),
            pre.registry.input.state.spec_frame(),
            post.registry.physics.state.spec_frame(),
        ),
{
}

/// Elevation clamp: whatever the accumulated view delta, one camera
/// update leaves the elevation inside the configured band, which itself
/// sits strictly inside the vertical poles.
pub proof fn lemma_elevation_always_in_band(
    c: Camera,
    azimuth_delta: int,
    elevation_delta: int,
)
    ensures
        ELEVATION_MIN <= camera_update_spec(c, azimuth_delta, elevation_delta).elevation
            <= ELEVATION_MAX,
        0 < ELEVATION_MIN,
        ELEVATION_MAX < ANGLE_HALF_TURN,
{
}

/// Monotonic generation: running the oldest admitted job advances that
/// domain's counter by exactly one and no other domain's at all, and the
/// newly published frame of the input or physics domain carries exactly
/// the next sequence number.
pub proof fn lemma_counter_strictly_increases(pre: GameLoop, post: GameLoop, ran: bool)
    requires
        pre.wf(),
        run_post(pre, post, ran),
        pre.jobs@.len() > 0,
        pre.registry.input.state.spec_frame_counter() < u64::MAX,
        pre.registry.physics.state.spec_frame_counter() < u64::MAX,
    ensures
        post.registry.generation(pre.jobs@[0]) == pre.registry.generation(pre.jobs@[0]) + 1,
        forall|d: DomainId|
            d != pre.jobs@[0] ==> post.registry.generation(d) == pre.registry.generation(d),
        pre.jobs@[0] == DomainId::Input ==> post.registry.input.state.spec_frame().frame_counter
            == pre.registry.input.state.spec_frame().frame_counter + 1,
        pre.jobs@[0] == DomainId::Physics
            ==> post.registry.physics.state.spec_frame().frame_counter
            == pre.registry.physics.state.spec_frame().frame_counter + 1,
{
    assert forall|d: DomainId|
        d != pre.jobs@[0] implies post.registry.generation(d) == pre.registry.generation(d) by {
        match d {
            DomainId::Input => {},
            DomainId::Physics => {},
            DomainId::Render => {},
        }
    }
}

/// Exclusion: in a well-formed scheduler state no domain ever has two
/// jobs in flight, and a domain whose admission gate is open has none.
pub proof fn lemma_no_overlapping_ticks(g: GameLoop)
    requires
        g.wf(),
    ensures
        forall|i: int, j: int|
            0 <= i < j < g.jobs@.len() ==> #[trigger] g.jobs@[i] != #[trigger] g.jobs@[j],
        forall|d: DomainId| g.registry.ready(d) ==> !g.jobs@.contains(d),
{
    assert forall|i: int, j: int|
        0 <= i < j < g.jobs@.len() implies #[trigger] g.jobs@[i] != #[trigger] g.jobs@[j] by {
        assert(g.jobs@.no_duplicates());
    }
    assert forall|d: DomainId| g.registry.ready(d) implies !g.jobs@.contains(d) by {
        match d {
            DomainId::Input => {},
            DomainId::Physics => {},
            DomainId::Render => {},
        }
    }
}

} // verus!
