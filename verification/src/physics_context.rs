//! The physics domain: its context state and its tick.

use vstd::prelude::*;
use crate::camera::camera_update_spec;
use crate::context_state::ContextState;
use crate::fixed::sat_neg_spec;
use crate::input_frame::InputFrame;
use crate::physics_frame::{
    chain_step_post, integrate_position_spec, targets_wf, ChainTarget, PhysicsFrame,
};

verus! {

/// The physics domain context: holds the latest committed physics frame.
pub struct PhysicsContext {
    pub state: ContextState<PhysicsFrame>,
}

impl PhysicsContext {
    pub fn new() -> (r: PhysicsContext)
        ensures
            r.state.spec_frame_counter() == 0,
            r.state.spec_ready(),
            PhysicsFrame::frame_zero_post(r.state.spec_frame()),
    {
        PhysicsContext { state: ContextState::new(PhysicsFrame::frame_zero()) }
    }

    /// The latest committed physics frame.
    pub fn get_frame(&self) -> (r: &PhysicsFrame)
        ensures
            *r == self.state.spec_frame(),
    {
        self.state.frame()
    }

    /// Fixed tick rate of the physics domain, in ticks per second.
    pub fn frequency(&self) -> (r: u64)
        ensures
            r == 120,
    {
        120
    }

    /// One physics tick: advances the held frame against the input frame
    /// read from the input domain and publishes the result. Never waits
    /// on the input domain: whatever frame it last published is used.
    pub fn tick(&mut self, input_frame: &InputFrame, targets: &Vec<Option<ChainTarget>>)
        requires
            old(self).state.spec_frame().wf(),
            old(self).state.spec_frame().frame_counter < u64::MAX,
            -1 <= input_frame.movement_delta.x <= 1,
            -1 <= input_frame.movement_delta.y <= 1,
            targets_wf(targets@, old(self).state.spec_frame().ik_chains@),
        ensures
            final(self).state.spec_frame().wf(),
            final(self).state.spec_frame().frame_counter == old(self).state.spec_frame().frame_counter
                + 1,
            final(self).state.spec_frame().camera == camera_update_spec(
                old(self).state.spec_frame().camera,
                sat_neg_spec(input_frame.view_angles_delta.x as int),
                sat_neg_spec(input_frame.view_angles_delta.y as int),
            ),
            final(self).state.spec_frame().player_position == integrate_position_spec(
                old(self).state.spec_frame().player_position,
                final(self).state.spec_frame().camera.azimuth as int,
                input_frame.movement_delta,
            ),
            final(self).state.spec_frame().light_direction == old(
                self,
            ).state.spec_frame().light_direction,
            final(self).state.spec_frame().ik_chains@.len() == old(
                self,
            ).state.spec_frame().ik_chains@.len(),
            forall|i: int|
                0 <= i < final(self).state.spec_frame().ik_chains@.len() ==> chain_step_post(
                    old(self).state.spec_frame().ik_chains@[i],
                    targets@[i],
                    #[trigger] final(self).state.spec_frame().ik_chains@[i],
                ),
            final(self).state.spec_frame_counter() == old(self).state.spec_frame_counter(),
            final(self).state.spec_ready() == old(self).state.spec_ready(),
    {
        let frame = PhysicsFrame::new(self.state.frame(), input_frame, targets);
        self.state.set_frame(frame);
    }
}

/// A target list that starts no new seek: one `None` per chain.
pub fn no_targets(n: usize) -> (r: Vec<Option<ChainTarget>>)
    ensures
        r@.len() == n,
        forall|i: int| 0 <= i < n ==> #[trigger] r@[i] is None,
{
    let mut r: Vec<Option<ChainTarget>> = Vec::new();
    let mut i: usize = 0;
    while i < n
        invariant
            i <= n,
            r@.len() == i,
            forall|j: int| 0 <= j < i ==> #[trigger] r@[j] is None,
        decreases n - i,
    {
        r.push(Option::None);
        i = i + 1;
    }
    r
}

} // verus!
