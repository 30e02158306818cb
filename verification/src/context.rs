//! The context registry: the three domain contexts, constructed once and
//! never altered in membership, plus the closed set of domain names the
//! scheduler treats uniformly.

use vstd::prelude::*;
use crate::input_context::InputContext;
use crate::input_frame::InputFrame;
use crate::physics_context::PhysicsContext;
use crate::physics_frame::PhysicsFrame;
use crate::render_context::RenderContext;

verus! {

/// The three fixed simulation domains.
#[derive(Clone, Copy, PartialEq, Eq, Structural, Debug)]
pub enum DomainId {
    Input,
    Physics,
    Render,
}

/// Binds the three domain contexts together so each can read another's
/// latest committed frame without circular ownership.
pub struct Registry {
    pub input: InputContext,
    pub physics: PhysicsContext,
    pub render: RenderContext,
}

impl Registry {
    /// Whether a tick of domain `d` may currently be admitted.
    pub open spec fn ready(&self, d: DomainId) -> bool {
        match d {
            DomainId::Input => self.input.state.spec_ready(),
            DomainId::Physics => self.physics.state.spec_ready(),
            DomainId::Render => self.render.state.spec_ready(),
        }
    }

    /// The generation counter of domain `d`.
    pub open spec fn generation(&self, d: DomainId) -> nat {
        match d {
            DomainId::Input => self.input.state.spec_frame_counter(),
            DomainId::Physics => self.physics.state.spec_frame_counter(),
            DomainId::Render => self.render.state.spec_frame_counter(),
        }
    }

    pub fn new(window_size: (u32, u32)) -> (r: Registry)
        ensures
            r.input.state.spec_frame_counter() == 0,
            r.input.state.spec_ready(),
            r.input.state.spec_frame() == InputFrame::frame_zero_spec(),
            r.input.spec_pending().len() == 0,
            r.physics.state.spec_frame_counter() == 0,
            r.physics.state.spec_ready(),
            PhysicsFrame::frame_zero_post(r.physics.state.spec_frame()),
            r.render.state.spec_frame_counter() == 0,
            r.render.state.spec_ready(),
            r.render.spec_outbox().len() == 0,
            r.render.window_size() == window_size,
    {
        Registry {
            input: InputContext::new(),
            physics: PhysicsContext::new(),
            render: RenderContext::new(window_size),
        }
    }

    /// The number of domains bound by the registry.
    pub fn len(&self) -> (r: usize)
        ensures
            r == 3,
    {
        3
    }

    pub fn context_input(&self) -> (r: &InputContext)
        ensures
            *r == self.input,
    {
        &self.input
    }

    pub fn context_physics(&self) -> (r: &PhysicsContext)
        ensures
            *r == self.physics,
    {
        &self.physics
    }

    pub fn context_render(&self) -> (r: &RenderContext)
        ensures
            *r == self.render,
    {
        &self.render
    }
}

} // verus!
