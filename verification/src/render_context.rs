//! The render domain: its context state, the identifiers of the models
//! it may draw, and the queue that hands finished render frames to the
//! external render processor.

use vstd::prelude::*;
use crate::context_state::ContextState;
use crate::physics_frame::PhysicsFrame;
use crate::queue::{new_render_queue, pop_render_frame, push_render_frame, render_queue_view};
use crate::render_frame::{render_post, RenderFrame};

verus! {

/// The static models a draw list may name.
#[derive(Clone, Copy, PartialEq, Eq, Structural, Hash, Debug)]
pub enum ModelId {
    Player,
    Scene,
    IKModel,
    Tree,
    Gnomon,
}

/// The render domain context: the latest committed render frame and the
/// outbox of frames awaiting the external render processor.
pub struct RenderContext {
    pub state: ContextState<RenderFrame>,
    pub q: crossbeam::queue::SegQueue<RenderFrame>,
    pub window_size: (u32, u32),
}

impl RenderContext {
    /// The frames awaiting the render processor, oldest first.
    pub open spec fn spec_outbox(&self) -> Seq<RenderFrame> {
        render_queue_view(self.q)
    }

    pub fn new(window_size: (u32, u32)) -> (r: RenderContext)
        ensures
            r.state.spec_frame_counter() == 0,
            r.state.spec_ready(),
            r.spec_outbox().len() == 0,
            r.window_size() == window_size,
            r.state.spec_frame().id == 0,
    {
        let zero = PhysicsFrame::frame_zero();
        RenderContext {
            state: ContextState::new(RenderFrame::new(&zero)),
            q: new_render_queue(),
            window_size,
        }
    }

    /// The window size the renderer draws into.
    pub open spec fn window_size(&self) -> (u32, u32) {
        self.window_size
    }

    pub fn get_window_size(&self) -> (r: (u32, u32))
        ensures
            r == self.window_size(),
    {
        self.window_size
    }

    /// Fixed tick rate of the render domain, in ticks per second.
    pub fn frequency(&self) -> (r: u64)
        ensures
            r == 60,
    {
        60
    }

    /// One render tick: derives the draw parameters from the physics
    /// frame read, publishes them, and appends them to the outbox.
    pub fn tick(&mut self, physics_frame: &PhysicsFrame)
        ensures
            render_post(*physics_frame, final(self).state.spec_frame()),
            final(self).spec_outbox().len() == old(self).spec_outbox().len() + 1,
            final(self).spec_outbox().take(old(self).spec_outbox().len() as int) == old(
                self,
            ).spec_outbox(),
            render_post(*physics_frame, final(self).spec_outbox().last()),
            final(self).state.spec_frame_counter() == old(self).state.spec_frame_counter(),
            final(self).state.spec_ready() == old(self).state.spec_ready(),
            final(self).window_size() == old(self).window_size(),
    {
        // The published snapshot and the queued hand-off are two values
        // with the same derivation: one stays readable here, one is
        // consumed by the render processor.
        let published = RenderFrame::new(physics_frame);
        self.state.set_frame(published);
        let outgoing = RenderFrame::new(physics_frame);
        let ghost before = render_queue_view(self.q);
        push_render_frame(&mut self.q, outgoing);
        proof {
            assert(render_queue_view(self.q).take(before.len() as int) =~= before);
        }
    }

    /// Hands the oldest outbox frame to the render processor, if any.
    pub fn take_frame(&mut self) -> (r: Option<RenderFrame>)
        ensures
            match r {
                Option::Some(f) => old(self).spec_outbox().len() > 0 && f == old(
                    self,
                ).spec_outbox()[0] && final(self).spec_outbox() == old(
                    self,
                ).spec_outbox().drop_first(),
                Option::None => old(self).spec_outbox().len() == 0 && final(self).spec_outbox()
                    == old(self).spec_outbox(),
            },
            final(self).state == old(self).state,
            final(self).window_size() == old(self).window_size(),
    {
        pop_render_frame(&mut self.q)
    }
}

} // verus!
