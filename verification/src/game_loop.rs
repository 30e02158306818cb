//! The multi-rate game loop: one sweep per pass decides, per domain and
//! against the clock value it is handed, whether a tick is due and may
//! be admitted; admitted ticks become queued jobs, and running a job
//! advances exactly one domain and releases its admission gate.
//!
//! Admission control is the only back-pressure: a domain still busy when
//! its tick is due is skipped — never waited on — and its schedule time
//! advances only on success. The busy flag guarantees that at most one
//! tick per domain is ever in flight.

use vstd::prelude::*;
use crate::camera::camera_update_spec;
use crate::context::{DomainId, Registry};
use crate::fixed::sat_neg_spec;
use crate::input_frame::{any_quit_spec, input_advance_spec};
use crate::physics_context::no_targets;
use crate::physics_frame::{chain_step_post, integrate_position_spec};
use crate::render_frame::render_post;

verus! {

pub const NANOSECONDS_PER_SECOND: u64 = 1000000000;

pub const INPUT_FREQUENCY: u64 = 120;

pub const PHYSICS_FREQUENCY: u64 = 120;

pub const RENDER_FREQUENCY: u64 = 60;

/// The scheduling interval of a domain ticking at `freq`: the nanoseconds
/// between two due ticks.
pub open spec fn spec_interval(freq: u64) -> int {
    (NANOSECONDS_PER_SECOND as int) / (freq as int)
}

/// The scheduler state: the registry, each domain's last scheduled time,
/// the queue of admitted tick jobs, and the quit latch.
pub struct GameLoop {
    pub registry: Registry,
    pub last_input_time: u64,
    pub last_physics_time: u64,
    pub last_render_time: u64,
    pub jobs: Vec<DomainId>,
    pub exit: bool,
}

/// What one sweep at clock value `now` does to the scheduler state:
/// every domain the pre-state admits has its job queued (input, physics,
/// render order), its gate closed, and its schedule time advanced by one
/// interval; everything else — frames, counters, queues, the quit latch
/// — is untouched.
pub open spec fn sweep_post(pre: GameLoop, post: GameLoop, now: u64) -> bool {
    &&& post.exit == pre.exit
    &&& post.registry.input.state.spec_frame() == pre.registry.input.state.spec_frame()
    &&& post.registry.input.state.spec_frame_counter()
        == pre.registry.input.state.spec_frame_counter()
    &&& post.registry.input.spec_pending() == pre.registry.input.spec_pending()
    &&& post.registry.physics.state.spec_frame() == pre.registry.physics.state.spec_frame()
    &&& post.registry.physics.state.spec_frame_counter()
        == pre.registry.physics.state.spec_frame_counter()
    &&& post.registry.render.state.spec_frame() == pre.registry.render.state.spec_frame()
    &&& post.registry.render.state.spec_frame_counter()
        == pre.registry.render.state.spec_frame_counter()
    &&& post.registry.render.spec_outbox() == pre.registry.render.spec_outbox()
    &&& (if pre.admits(now, DomainId::Input) {
        post.last_input_time == pre.last_input_time + spec_interval(INPUT_FREQUENCY)
            && !post.registry.input.state.spec_ready()
    } else {
        post.last_input_time == pre.last_input_time && post.registry.input.state.spec_ready()
            == pre.registry.input.state.spec_ready()
    })
    &&& (if pre.admits(now, DomainId::Physics) {
        post.last_physics_time == pre.last_physics_time + spec_interval(PHYSICS_FREQUENCY)
            && !post.registry.physics.state.spec_ready()
    } else {
        post.last_physics_time == pre.last_physics_time && post.registry.physics.state.spec_ready()
            == pre.registry.physics.state.spec_ready()
    })
    &&& (if pre.admits(now, DomainId::Render) {
        post.last_render_time == pre.last_render_time + spec_interval(RENDER_FREQUENCY)
            && !post.registry.render.state.spec_ready()
    } else {
        post.last_render_time == pre.last_render_time && post.registry.render.state.spec_ready()
            == pre.registry.render.state.spec_ready()
    })
    &&& post.jobs@ == pre.jobs@ + (if pre.admits(now, DomainId::Input) {
        seq![DomainId::Input]
    } else {
        Seq::<DomainId>::empty()
    }) + (if pre.admits(now, DomainId::Physics) {
        seq![DomainId::Physics]
    } else {
        Seq::<DomainId>::empty()
    }) + (if pre.admits(now, DomainId::Render) {
        seq![DomainId::Render]
    } else {
        Seq::<DomainId>::empty()
    })
}

/// What running the oldest admitted job does: exactly that domain
/// advances one tick — its generation counter up by one, its new frame
/// the stated function of the frames it read, its gate released — and
/// the other two domains are untouched. With no job queued, nothing
/// changes.
pub open spec fn run_post(pre: GameLoop, post: GameLoop, ran: bool) -> bool {
    &&& post.last_input_time == pre.last_input_time
    &&& post.last_physics_time == pre.last_physics_time
    &&& post.last_render_time == pre.last_render_time
    &&& (pre.jobs@.len() == 0 ==> !ran && post == pre)
    &&& (pre.jobs@.len() > 0 ==> ran && post.jobs@ == pre.jobs@.drop_first())
    &&& (pre.jobs@.len() > 0 && pre.jobs@[0] == DomainId::Input ==> {
        &&& post.registry.input.state.spec_frame() == input_advance_spec(
            pre.registry.input.state.spec_frame(),
            pre.registry.input.spec_pending(),
        )
        &&& post.registry.input.state.spec_frame_counter()
            == pre.registry.input.state.spec_frame_counter() + 1
        &&& post.registry.input.state.spec_ready()
        &&& post.registry.input.spec_pending().len() == 0
        &&& post.exit == (pre.exit || any_quit_spec(pre.registry.input.spec_pending()))
        &&& post.registry.physics == pre.registry.physics
        &&& post.registry.render == pre.registry.render
    })
    &&& (pre.jobs@.len() > 0 && pre.jobs@[0] == DomainId::Physics ==> {
        let prev = pre.registry.physics.state.spec_frame();
        let read = pre.registry.input.state.spec_frame();
        let new = post.registry.physics.state.spec_frame();
        &&& new.frame_counter == prev.frame_counter + 1
        &&& new.camera == camera_update_spec(
            prev.camera,
            sat_neg_spec(read.view_angles_delta.x as int),
            sat_neg_spec(read.view_angles_delta.y as int),
        )
        &&& new.player_position == integrate_position_spec(
            prev.player_position,
            new.camera.azimuth as int,
            read.movement_delta,
        )
        &&& new.light_direction == prev.light_direction
        &&& new.ik_chains@.len() == prev.ik_chains@.len()
        &&& (forall|i: int|
            0 <= i < new.ik_chains@.len() ==> chain_step_post(
                prev.ik_chains@[i],
                Option::None,
                #[trigger] new.ik_chains@[i],
            ))
        &&& post.registry.physics.state.spec_frame_counter()
            == pre.registry.physics.state.spec_frame_counter() + 1
        &&& post.registry.physics.state.spec_ready()
        &&& post.registry.input == pre.registry.input
        &&& post.registry.render == pre.registry.render
        &&& post.exit == pre.exit
    })
    &&& (pre.jobs@.len() > 0 && pre.jobs@[0] == DomainId::Render ==> {
        &&& render_post(
            pre.registry.physics.state.spec_frame(),
            post.registry.render.state.spec_frame(),
        )
        &&& post.registry.render.spec_outbox().len() == pre.registry.render.spec_outbox().len() + 1
        &&& post.registry.render.spec_outbox().take(pre.registry.render.spec_outbox().len() as int)
            == pre.registry.render.spec_outbox()
        &&& render_post(
            pre.registry.physics.state.spec_frame(),
            post.registry.render.spec_outbox().last(),
        )
        &&& post.registry.render.state.spec_frame_counter()
            == pre.registry.render.state.spec_frame_counter() + 1
        &&& post.registry.render.state.spec_ready()
        &&& post.registry.input == pre.registry.input
        &&& post.registry.physics == pre.registry.physics
        &&& post.exit == pre.exit
    })
}

impl GameLoop {
    /// The scheduler invariant. Admission control is exact: a domain is
    /// busy precisely while one job for it is queued, so no domain ever
    /// has two ticks in flight. Generation counters agree with the
    /// published frames, and published frames are valid.
    pub open spec fn wf(&self) -> bool {
        &&& self.jobs@.no_duplicates()
        &&& (self.jobs@.contains(DomainId::Input) <==> !self.registry.input.state.spec_ready())
        &&& (self.jobs@.contains(DomainId::Physics) <==> !self.registry.physics.state.spec_ready())
        &&& (self.jobs@.contains(DomainId::Render) <==> !self.registry.render.state.spec_ready())
        &&& self.registry.input.state.spec_frame().frame_counter
            == self.registry.input.state.spec_frame_counter()
        &&& -1 <= self.registry.input.state.spec_frame().movement_delta.x <= 1
        &&& -1 <= self.registry.input.state.spec_frame().movement_delta.y <= 1
        &&& self.registry.physics.state.spec_frame().frame_counter
            == self.registry.physics.state.spec_frame_counter()
        &&& self.registry.physics.state.spec_frame().wf()
    }

    /// Whether a sweep at time `now` admits a tick of domain `d`: the
    /// loop is not quitting, the tick is due, and the domain is ready.
    pub open spec fn admits(&self, now: u64, d: DomainId) -> bool {
        &&& !self.exit
        &&& (match d {
            DomainId::Input => now - self.last_input_time > spec_interval(INPUT_FREQUENCY)
                && self.registry.input.state.spec_ready(),
            DomainId::Physics => now - self.last_physics_time > spec_interval(PHYSICS_FREQUENCY)
                && self.registry.physics.state.spec_ready(),
            DomainId::Render => now - self.last_render_time > spec_interval(RENDER_FREQUENCY)
                && self.registry.render.state.spec_ready(),
        })
    }

    pub fn new(now: u64, window_size: (u32, u32)) -> (r: GameLoop)
        ensures
            r.wf(),
            r.registry.input.state.spec_frame_counter() == 0,
            r.registry.physics.state.spec_frame_counter() == 0,
            r.registry.render.state.spec_frame_counter() == 0,
            r.registry.input.spec_pending().len() == 0,
            r.registry.render.spec_outbox().len() == 0,
            r.last_input_time == now,
            r.last_physics_time == now,
            r.last_render_time == now,
            r.jobs@.len() == 0,
            !r.exit,
    {
        GameLoop {
            registry: Registry::new(window_size),
            last_input_time: now,
            last_physics_time: now,
            last_render_time: now,
            jobs: Vec::new(),
            exit: false,
        }
    }

    /// The number of admitted jobs not yet run.
    pub fn pending_jobs(&self) -> (r: usize)
        ensures
            r == self.jobs@.len(),
    {
        self.jobs.len()
    }

    /// Latches the quit signal: later sweeps admit no further ticks;
    /// jobs already admitted still drain.
    pub fn request_exit(&mut self)
        requires
            old(self).wf(),
        ensures
            final(self).wf(),
            final(self).exit,
            final(self).registry == old(self).registry,
            final(self).jobs@ == old(self).jobs@,
            final(self).last_input_time == old(self).last_input_time,
            final(self).last_physics_time == old(self).last_physics_time,
            final(self).last_render_time == old(self).last_render_time,
    {
        self.exit = true;
    }

    /// One scheduler sweep at clock value `now`: for each domain whose
    /// tick is due and whose admission gate is open, marks it busy,
    /// advances its schedule time by one interval, and queues its job.
    /// A busy domain is skipped and its schedule time left unchanged.
    pub fn sweep(&mut self, now: u64)
        requires
            old(self).wf(),
            old(self).last_input_time <= now,
            old(self).last_physics_time <= now,
            old(self).last_render_time <= now,
            now <= u64::MAX - NANOSECONDS_PER_SECOND,
        ensures
            final(self).wf(),
            sweep_post(*old(self), *final(self), now),
    {
        let ghost start = *self;
        if !self.exit {
            let input_rate = NANOSECONDS_PER_SECOND / INPUT_FREQUENCY;
            if now - self.last_input_time > input_rate {
                if self.registry.input.state.is_ready() {
                    self.last_input_time = self.last_input_time + input_rate;
                    proof {
                        lemma_push_distinct(self.jobs@, DomainId::Input);
                    }
                    self.jobs.push(DomainId::Input);
                }
            }
            let physics_rate = NANOSECONDS_PER_SECOND / PHYSICS_FREQUENCY;
            if now - self.last_physics_time > physics_rate {
                if self.registry.physics.state.is_ready() {
                    self.last_physics_time = self.last_physics_time + physics_rate;
                    proof {
                        lemma_push_distinct(self.jobs@, DomainId::Physics);
                    }
                    self.jobs.push(DomainId::Physics);
                }
            }
            let render_rate = NANOSECONDS_PER_SECOND / RENDER_FREQUENCY;
            if now - self.last_render_time > render_rate {
                if self.registry.render.state.is_ready() {
                    self.last_render_time = self.last_render_time + render_rate;
                    proof {
                        lemma_push_distinct(self.jobs@, DomainId::Render);
                    }
                    self.jobs.push(DomainId::Render);
                }
            }
        }
        proof {
            assert(self.jobs@ =~= start.jobs@ + (if start.admits(now, DomainId::Input) {
                seq![DomainId::Input]
            } else {
                Seq::<DomainId>::empty()
            }) + (if start.admits(now, DomainId::Physics) {
                seq![DomainId::Physics]
            } else {
                Seq::<DomainId>::empty()
            }) + (if start.admits(now, DomainId::Render) {
                seq![DomainId::Render]
            } else {
                Seq::<DomainId>::empty()
            }));
        }
    }

    /// Runs the oldest admitted job, if any: opens the tick (generation
    /// counter), advances the domain against the frames it reads,
    /// publishes, and releases the admission gate. An input tick that
    /// drained a quit signal latches the quit flag. A job never waits:
    /// the physics tick reads whatever input frame is currently
    /// published, however stale.
    pub fn run_next_job(&mut self) -> (ran: bool)
        requires
            old(self).wf(),
            old(self).registry.input.state.spec_frame_counter() < u64::MAX,
            old(self).registry.physics.state.spec_frame_counter() < u64::MAX,
            old(self).registry.render.state.spec_frame_counter() < u64::MAX,
        ensures
            final(self).wf(),
            run_post(*old(self), *final(self), ran),
    {
        if self.jobs.len() == 0 {
            return false;
        }
        proof {
            lemma_remove_first(self.jobs@);
        }
        let d = self.jobs.remove(0);
        proof {
            assert(self.jobs@ =~= old(self).jobs@.drop_first());
        }
        match d {
            DomainId::Input => {
                self.registry.input.state.increment();
                let quit = self.registry.input.tick();
                if quit {
                    self.exit = true;
                }
                self.registry.input.state.release_ready_lock();
            },
            DomainId::Physics => {
                self.registry.physics.state.increment();
                let input_frame = *self.registry.input.state.frame();
                let n = self.registry.physics.state.frame().ik_chains.len();
                let targets = no_targets(n);
                self.registry.physics.tick(&input_frame, &targets);
                self.registry.physics.state.release_ready_lock();
            },
            DomainId::Render => {
                self.registry.render.state.increment();
                self.registry.render.tick(self.registry.physics.state.frame());
                self.registry.render.state.release_ready_lock();
            },
        }
        true
    }
}

/// Pushing an element not yet present keeps a job queue duplicate-free
/// and extends its membership by exactly that element.
proof fn lemma_push_distinct(s: Seq<DomainId>, d: DomainId)
    requires
        s.no_duplicates(),
        !s.contains(d),
    ensures
        s.push(d).no_duplicates(),
        forall|x: DomainId| s.push(d).contains(x) <==> (s.contains(x) || x == d),
{
    let p = s.push(d);
    assert forall|x: DomainId| p.contains(x) implies (s.contains(x) || x == d) by {
        let i = choose|i: int| 0 <= i < p.len() && p[i] == x;
        if i < s.len() {
            assert(s[i] == x);
        }
    }
    assert forall|x: DomainId| (s.contains(x) || x == d) implies p.contains(x) by {
        if s.contains(x) {
            let i = choose|i: int| 0 <= i < s.len() && s[i] == x;
            assert(p[i] == x);
        } else {
            assert(p[s.len() as int] == x);
        }
    }
}

/// Dropping the first element of a duplicate-free queue removes exactly
/// that element's membership.
proof fn lemma_remove_first(s: Seq<DomainId>)
    requires
        s.len() > 0,
        s.no_duplicates(),
    ensures
        s.drop_first().no_duplicates(),
        !s.drop_first().contains(s[0]),
        forall|x: DomainId| x != s[0] ==> (s.drop_first().contains(x) <==> s.contains(x)),
{
    let t = s.drop_first();
    assert forall|i: int, j: int|
        0 <= i < t.len() && 0 <= j < t.len() && i != j implies t[i] != t[j] by {
        assert(t[i] == s[i + 1]);
        assert(t[j] == s[j + 1]);
    }
    if t.contains(s[0]) {
        let i = choose|i: int| 0 <= i < t.len() && t[i] == s[0];
        assert(s[i + 1] == s[0]);
        assert(false);
    }
    assert forall|x: DomainId| x != s[0] implies (t.contains(x) <==> s.contains(x)) by {
        if t.contains(x) {
            let i = choose|i: int| 0 <= i < t.len() && t[i] == x;
            assert(s[i + 1] == x);
        }
        if s.contains(x) {
            let i = choose|i: int| 0 <= i < s.len() && s[i] == x;
            if i > 0 {
                assert(t[i - 1] == x);
            }
        }
    }
}

} // verus!
