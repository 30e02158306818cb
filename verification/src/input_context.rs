//! The input domain: its context state, the event queue the windowing
//! collaborator posts into, and the tick that drains and folds it.

use vstd::prelude::*;
use crate::context_state::ContextState;
use crate::input_event::InputEvent;
use crate::input_frame::{any_quit_spec, input_advance_spec, InputFrame};
use crate::input_map::InputMap;
use crate::queue::{input_queue_view, new_input_queue, pop_input_event, push_input_event};

verus! {

/// The input domain context: the latest committed input frame and the
/// queue of raw events not yet folded into one.
pub struct InputContext {
    pub state: ContextState<InputFrame>,
    pub input_q: crossbeam::queue::SegQueue<InputEvent>,
    pub input_map: InputMap,
}

impl InputContext {
    /// The events posted since the last tick, oldest first.
    pub open spec fn spec_pending(&self) -> Seq<InputEvent> {
        input_queue_view(self.input_q)
    }

    pub fn new() -> (r: InputContext)
        ensures
            r.state.spec_frame_counter() == 0,
            r.state.spec_ready(),
            r.state.spec_frame() == InputFrame::frame_zero_spec(),
            r.spec_pending().len() == 0,
    {
        InputContext {
            state: ContextState::new(InputFrame::frame_zero()),
            input_q: new_input_queue(),
            input_map: InputMap {},
        }
    }

    /// Fixed tick rate of the input domain, in ticks per second.
    pub fn frequency(&self) -> (r: u64)
        ensures
            r == 120,
    {
        120
    }

    /// Appends raw events, in order, behind the ones already pending.
    pub fn post_input_events(&mut self, input_events: Vec<InputEvent>)
        ensures
            final(self).spec_pending() == old(self).spec_pending() + input_events@,
            final(self).state == old(self).state,
    {
        let ghost initial = input_queue_view(self.input_q);
        let mut i: usize = 0;
        while i < input_events.len()
            invariant
                i <= input_events@.len(),
                input_queue_view(self.input_q) == initial + input_events@.take(i as int),
                self.state == old(self).state,
                self.input_map == old(self).input_map,
            decreases input_events@.len() - i,
        {
            push_input_event(&mut self.input_q, input_events[i]);
            proof {
                assert((initial + input_events@.take(i as int)).push(input_events@[i as int])
                    =~= initial + input_events@.take(i as int + 1));
            }
            i = i + 1;
        }
        proof {
            assert(initial + input_events@.take(input_events@.len() as int) =~= initial
                + input_events@);
        }
    }

    /// One input tick: drains every pending event, folds the net
    /// held-key state and accumulated view delta into a new frame, and
    /// publishes it. Returns whether a quit signal was drained.
    pub fn tick(&mut self) -> (quit: bool)
        requires
            old(self).state.spec_frame().frame_counter < u64::MAX,
        ensures
            final(self).state.spec_frame() == input_advance_spec(
                old(self).state.spec_frame(),
                old(self).spec_pending(),
            ),
            final(self).spec_pending().len() == 0,
            final(self).state.spec_frame_counter() == old(self).state.spec_frame_counter(),
            final(self).state.spec_ready() == old(self).state.spec_ready(),
            quit == any_quit_spec(old(self).spec_pending()),
    {
        let ghost initial = input_queue_view(self.input_q);
        let mut drained: Vec<InputEvent> = Vec::new();
        let mut quit = false;
        let mut done = false;
        while !done
            invariant
                initial == drained@ + input_queue_view(self.input_q),
                any_quit_spec(initial) == (quit || any_quit_spec(input_queue_view(self.input_q))),
                done ==> input_queue_view(self.input_q).len() == 0,
                self.state == old(self).state,
                self.input_map == old(self).input_map,
            decreases input_queue_view(self.input_q).len() + (if done {
                0int
            } else {
                1int
            }),
        {
            let ghost pending = input_queue_view(self.input_q);
            match pop_input_event(&mut self.input_q) {
                Option::Some(e) => {
                    proof {
                        assert(drained@.push(e) + pending.drop_first() =~= drained@ + pending);
                    }
                    if let InputEvent::Quit = e {
                        quit = true;
                    }
                    drained.push(e);
                },
                Option::None => {
                    done = true;
                },
            }
        }
        proof {
            assert(drained@ + input_queue_view(self.input_q) =~= drained@);
            assert(initial == drained@);
        }
        let prev = *self.state.frame();
        let frame = InputFrame::new(&prev, &drained);
        self.state.set_frame(frame);
        quit
    }
}

} // verus!
