//! The render domain's frame: draw-ready parameters derived from the
//! latest physics frame, handed to the external render processor.

use vstd::prelude::*;
use crate::camera::Camera;
use crate::fixed::{sat_neg_spec, sat_neg, Vec3};
use crate::inverse_kinematics::{copy_vec, Chain, Joint, State};
use crate::physics_frame::PhysicsFrame;
use crate::render_context::ModelId;

verus! {

/// One committed snapshot of the render domain: everything the external
/// render processor needs to draw, and nothing of how it draws.
pub struct RenderFrame {
    pub id: u64,
    pub camera: Camera,
    pub player_position: Vec3,
    pub reverse_light_direction: Vec3,
    pub models: Vec<ModelId>,
    pub chains: Vec<ChainDraw>,
}

/// The draw-ready shape of one animation chain: its anchor, its joints
/// and their current angles, and — while it is seeking or holding a
/// target — the target point, for the indicator model.
pub struct ChainDraw {
    pub position: Vec3,
    pub joints: Vec<Joint>,
    pub angles: Vec<i64>,
    pub target: Option<Vec3>,
}

/// The target a chain's draw data shows: the seek or hold target while
/// one is set, nothing while the chain rests.
pub open spec fn chain_target_spec(c: Chain) -> Option<Vec3> {
    match c.state {
        State::Seeking { target, .. } => Option::Some(target),
        State::Waiting { target, .. } => Option::Some(target),
        State::Done => Option::None,
    }
}

/// What one chain's draw data carries of the chain itself.
pub open spec fn chain_draw_post(c: Chain, d: ChainDraw) -> bool {
    &&& d.position == c.position
    &&& d.joints@ == c.joints@
    &&& d.angles@ == c.angles@
    &&& d.target == chain_target_spec(c)
}

/// The draw list one render frame carries: the scene, the player, nine
/// trees, and one entry per animation chain.
pub open spec fn models_post(p: PhysicsFrame, s: Seq<ModelId>) -> bool {
    &&& s.len() == 11 + p.ik_chains@.len()
    &&& s[0] == ModelId::Scene
    &&& s[1] == ModelId::Player
    &&& (forall|i: int| 2 <= i < 11 ==> #[trigger] s[i] == ModelId::Tree)
    &&& (forall|i: int| 11 <= i < s.len() ==> #[trigger] s[i] == ModelId::IKModel)
}

/// What deriving a render frame from physics frame `p` yields.
pub open spec fn render_post(p: PhysicsFrame, r: RenderFrame) -> bool {
    &&& r.id == p.frame_counter
    &&& r.camera == p.camera
    &&& r.player_position == p.player_position
    &&& r.reverse_light_direction == (Vec3 {
        x: sat_neg_spec(p.light_direction.x as int) as i64,
        y: sat_neg_spec(p.light_direction.y as int) as i64,
        z: sat_neg_spec(p.light_direction.z as int) as i64,
    })
    &&& models_post(p, r.models@)
    &&& r.chains@.len() == p.ik_chains@.len()
    &&& (forall|i: int|
        0 <= i < r.chains@.len() ==> chain_draw_post(p.ik_chains@[i], #[trigger] r.chains@[i]))
}

impl RenderFrame {
    /// Derives the draw parameters of one render tick from the physics
    /// frame it read. Deterministic: a function of that frame alone.
    pub fn new(p: &PhysicsFrame) -> (r: RenderFrame)
        ensures
            render_post(*p, r),
    {
        let mut models: Vec<ModelId> = Vec::new();
        models.push(ModelId::Scene);
        models.push(ModelId::Player);
        let mut i: usize = 0;
        while i < 9
            invariant
                i <= 9,
                models@.len() == 2 + i,
                models@[0] == ModelId::Scene,
                models@[1] == ModelId::Player,
                forall|j: int| 2 <= j < 2 + i ==> #[trigger] models@[j] == ModelId::Tree,
            decreases 9 - i,
        {
            models.push(ModelId::Tree);
            i = i + 1;
        }
        let n = p.ik_chains.len();
        let mut chains: Vec<ChainDraw> = Vec::new();
        let mut k: usize = 0;
        while k < n
            invariant
                k <= n,
                n == p.ik_chains@.len(),
                models@.len() == 11 + k,
                models@[0] == ModelId::Scene,
                models@[1] == ModelId::Player,
                forall|j: int| 2 <= j < 11 ==> #[trigger] models@[j] == ModelId::Tree,
                forall|j: int| 11 <= j < 11 + k ==> #[trigger] models@[j] == ModelId::IKModel,
                chains@.len() == k,
                forall|j: int|
                    0 <= j < k ==> chain_draw_post(p.ik_chains@[j], #[trigger] chains@[j]),
            decreases n - k,
        {
            models.push(ModelId::IKModel);
            chains.push(chain_draw(&p.ik_chains[k]));
            k = k + 1;
        }
        RenderFrame {
            id: p.frame_counter,
            camera: p.camera,
            player_position: p.player_position,
            reverse_light_direction: Vec3 {
                x: sat_neg(p.light_direction.x),
                y: sat_neg(p.light_direction.y),
                z: sat_neg(p.light_direction.z),
            },
            models,
            chains,
        }
    }
}

/// Extracts the draw-ready shape of one chain.
fn chain_draw(c: &Chain) -> (d: ChainDraw)
    ensures
        chain_draw_post(*c, d),
{
    let target = match &c.state {
        State::Seeking { target, .. } => Option::Some(*target),
        State::Waiting { target, .. } => Option::Some(*target),
        State::Done => Option::None,
    };
    ChainDraw {
        position: c.position,
        joints: copy_vec(&c.joints),
        angles: copy_vec(&c.angles),
        target,
    }
}

} // verus!
