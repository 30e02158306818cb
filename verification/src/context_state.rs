//! Per-domain container for the latest committed frame snapshot plus the
//! admission-control gate that prevents overlapping ticks of one domain.

use vstd::prelude::*;
use crate::frame_counter::FrameCounter;

verus! {

/// Holds one domain's most recently published frame, its generation
/// counter, and the "ready" flag used as an admission gate: a tick may be
/// scheduled only while the flag is set, and acquiring it clears it.
pub struct ContextState<T> {
    frame_counter: FrameCounter,
    ready_lock: bool,
    frame: T,
}

impl<T> ContextState<T> {
    /// Generation count of the domain: how many ticks have been admitted.
    pub closed spec fn spec_frame_counter(&self) -> nat {
        self.frame_counter@
    }

    /// True while no tick is in flight for this domain.
    pub closed spec fn spec_ready(&self) -> bool {
        self.ready_lock
    }

    /// The currently published frame.
    pub closed spec fn spec_frame(&self) -> T {
        self.frame
    }

    pub fn new(frame: T) -> (r: ContextState<T>)
        ensures
            r.spec_frame_counter() == 0,
            r.spec_ready(),
            r.spec_frame() == frame,
    {
        ContextState {
            frame_counter: FrameCounter::new(0),
            ready_lock: true,
            frame,
        }
    }

    pub fn frame_counter(&self) -> (r: u64)
        ensures
            r as nat == self.spec_frame_counter(),
    {
        self.frame_counter.get()
    }

    /// The most recently published frame; readers always see a complete,
    /// previously committed snapshot.
    pub fn frame(&self) -> (r: &T)
        ensures
            *r == self.spec_frame(),
    {
        &self.frame
    }

    /// Publishes a new frame, replacing the previous snapshot whole.
    pub fn set_frame(&mut self, frame: T)
        ensures
            final(self).spec_frame() == frame,
            final(self).spec_frame_counter() == old(self).spec_frame_counter(),
            final(self).spec_ready() == old(self).spec_ready(),
    {
        self.frame = frame;
    }

    /// Admission gate: returns whether the domain was ready, and in the
    /// same step marks it busy. Called twice without a release in
    /// between, the second call therefore reports `false`.
    pub fn is_ready(&mut self) -> (r: bool)
        ensures
            r == old(self).spec_ready(),
            !final(self).spec_ready(),
            final(self).spec_frame_counter() == old(self).spec_frame_counter(),
            final(self).spec_frame() == old(self).spec_frame(),
    {
        let was = self.ready_lock;
        self.ready_lock = false;
        was
    }

    /// Advances the generation counter by one, returning the pre-increment
    /// value.
    pub fn increment(&mut self) -> (r: u64)
        requires
            old(self).spec_frame_counter() < u64::MAX,
        ensures
            final(self).spec_frame_counter() == old(self).spec_frame_counter() + 1,
            r as nat == old(self).spec_frame_counter(),
            final(self).spec_ready() == old(self).spec_ready(),
            final(self).spec_frame() == old(self).spec_frame(),
    {
        self.frame_counter.increment()
    }

    /// Clears the busy state after a tick's frame has been published; the
    /// domain may be scheduled again.
    pub fn release_ready_lock(&mut self)
        ensures
            final(self).spec_ready(),
            final(self).spec_frame_counter() == old(self).spec_frame_counter(),
            final(self).spec_frame() == old(self).spec_frame(),
    {
        self.ready_lock = true;
    }
}

/// The capability surface the game loop needs from any domain's state:
/// the admission gate and the tick bracket, independent of the frame type.
pub trait ContextStateProxy {
    /// Whether a tick may currently be admitted.
    spec fn proxy_ready(&self) -> bool;

    /// The domain's generation count.
    spec fn proxy_generation(&self) -> nat;

    /// Admission gate; see [`ContextState::is_ready`].
    fn is_ready(&mut self) -> (r: bool)
        ensures
            r == old(self).proxy_ready(),
            !final(self).proxy_ready(),
            final(self).proxy_generation() == old(self).proxy_generation();

    /// Opens a tick: advances the generation counter.
    fn pre_tick(&mut self)
        requires
            old(self).proxy_generation() < u64::MAX,
        ensures
            final(self).proxy_generation() == old(self).proxy_generation() + 1,
            final(self).proxy_ready() == old(self).proxy_ready();

    /// Closes a tick: releases the admission gate.
    fn post_tick(&mut self)
        ensures
            final(self).proxy_ready(),
            final(self).proxy_generation() == old(self).proxy_generation();
}

impl<T> ContextStateProxy for ContextState<T> {
    open spec fn proxy_ready(&self) -> bool {
        self.spec_ready()
    }

    open spec fn proxy_generation(&self) -> nat {
        self.spec_frame_counter()
    }

    fn is_ready(&mut self) -> (r: bool) {
        self.is_ready()
    }

    fn pre_tick(&mut self) {
        self.increment();
    }

    fn post_tick(&mut self) {
        self.release_ready_lock();
    }
}

} // verus!
