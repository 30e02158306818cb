//! The input domain's frame: the held-key record, the per-tick movement
//! direction derived from it, and the per-tick accumulated view delta.
//!
//! Folding a tick's drained events is a *net* operation: the frame
//! reflects the held-key state after the whole drain, not a running log,
//! so the last transition of a key within one drain decides its state.

use vstd::prelude::*;
use crate::fixed::{sat_add_spec, sat_add, Vec2};
use crate::input_event::{InputEvent, KeyCode};

verus! {

/// Which movement keys are currently held.
#[derive(Clone, Copy, PartialEq, Eq, Structural, Debug)]
pub struct KeyboardState {
    pub forward: bool,
    pub backward: bool,
    pub right: bool,
    pub left: bool,
}

impl Default for KeyboardState {
    /// All keys released.
    fn default() -> (r: KeyboardState)
        ensures
            r == (KeyboardState { forward: false, backward: false, right: false, left: false }),
    {
        KeyboardState { forward: false, backward: false, right: false, left: false }
    }
}

/// One committed snapshot of the input domain.
#[derive(Clone, Copy, PartialEq, Eq, Structural, Debug)]
pub struct InputFrame {
    pub frame_counter: u64,
    pub movement_delta: Vec2,
    pub view_angles_delta: Vec2,
    pub keyboard_state: KeyboardState,
}

/// A single event applied to the held-key record. Only transitions of the
/// four bound movement keys change it.
pub open spec fn apply_event_spec(kb: KeyboardState, e: InputEvent) -> KeyboardState {
    match e {
        InputEvent::KeyboardInput { pressed, id } => match id {
            KeyCode::W => KeyboardState { forward: pressed, ..kb },
            KeyCode::S => KeyboardState { backward: pressed, ..kb },
            KeyCode::D => KeyboardState { right: pressed, ..kb },
            KeyCode::A => KeyboardState { left: pressed, ..kb },
            KeyCode::Other => kb,
        },
        _ => kb,
    }
}

/// The held-key record after folding a whole drain of events, in order.
pub open spec fn fold_keyboard_spec(kb: KeyboardState, events: Seq<InputEvent>) -> KeyboardState
    decreases events.len(),
{
    if events.len() == 0 {
        kb
    } else {
        fold_keyboard_spec(apply_event_spec(kb, events[0]), events.drop_first())
    }
}

/// The additive movement policy: each held key contributes one axis unit;
/// opposing keys cancel; diagonals are not normalized.
pub open spec fn movement_of_spec(kb: KeyboardState) -> Vec2 {
    let fx = (if kb.forward { 1int } else { 0int }) - (if kb.backward { 1int } else { 0int });
    let fy = (if kb.right { 1int } else { 0int }) - (if kb.left { 1int } else { 0int });
    Vec2 { x: fx as i64, y: fy as i64 }
}

/// The pointer deltas of a drain, accumulated (saturating) onto `acc`.
pub open spec fn fold_view_spec(acc: Vec2, events: Seq<InputEvent>) -> Vec2
    decreases events.len(),
{
    if events.len() == 0 {
        acc
    } else {
        let next = match events[0] {
            InputEvent::MouseMoved { dx, dy } => Vec2 {
                x: sat_add_spec(acc.x as int, dx as int) as i64,
                y: sat_add_spec(acc.y as int, dy as int) as i64,
            },
            _ => acc,
        };
        fold_view_spec(next, events.drop_first())
    }
}

/// Whether a drain contains the quit signal.
pub open spec fn any_quit_spec(events: Seq<InputEvent>) -> bool
    decreases events.len(),
{
    if events.len() == 0 {
        false
    } else {
        (events[0] is Quit) || any_quit_spec(events.drop_first())
    }
}

/// The complete input advance: what one tick of the input domain
/// publishes, given the previous frame and the events drained this tick.
pub open spec fn input_advance_spec(prev: InputFrame, events: Seq<InputEvent>) -> InputFrame {
    let kb = fold_keyboard_spec(prev.keyboard_state, events);
    InputFrame {
        frame_counter: (prev.frame_counter + 1) as u64,
        movement_delta: movement_of_spec(kb),
        view_angles_delta: fold_view_spec(Vec2 { x: 0, y: 0 }, events),
        keyboard_state: kb,
    }
}

impl InputFrame {
    /// The frame the input domain is created with.
    pub open spec fn frame_zero_spec() -> InputFrame {
        InputFrame {
            frame_counter: 0,
            movement_delta: Vec2 { x: 0, y: 0 },
            view_angles_delta: Vec2 { x: 0, y: 0 },
            keyboard_state: KeyboardState {
                forward: false,
                backward: false,
                right: false,
                left: false,
            },
        }
    }

    pub fn frame_zero() -> (r: InputFrame)
        ensures
            r == InputFrame::frame_zero_spec(),
    {
        InputFrame {
            frame_counter: 0,
            movement_delta: Vec2 { x: 0, y: 0 },
            view_angles_delta: Vec2 { x: 0, y: 0 },
            keyboard_state: KeyboardState {
                forward: false,
                backward: false,
                right: false,
                left: false,
            },
        }
    }

    /// Pure input advance: folds one tick's drained events into the
    /// previous frame. Deterministic: the result is a function of the
    /// previous frame and the ordered event sequence alone.
    pub fn new(prev: &InputFrame, events: &Vec<InputEvent>) -> (r: InputFrame)
        requires
            prev.frame_counter < u64::MAX,
        ensures
            r == input_advance_spec(*prev, events@),
    {
        let ghost all = events@;
        let mut kb = prev.keyboard_state;
        let mut view = Vec2 { x: 0, y: 0 };
        let mut i: usize = 0;
        proof {
            assert(all.skip(0) =~= all);
        }
        while i < events.len()
            invariant
                i <= events.len(),
                all == events@,
                fold_keyboard_spec(prev.keyboard_state, all)
                    == fold_keyboard_spec(kb, all.skip(i as int)),
                fold_view_spec(Vec2 { x: 0, y: 0 }, all)
                    == fold_view_spec(view, all.skip(i as int)),
            decreases events.len() - i,
        {
            let e = events[i];
            proof {
                assert(all.skip(i as int)[0] == all[i as int]);
                assert(all.skip(i as int).drop_first() =~= all.skip(i as int + 1));
            }
            match e {
                InputEvent::KeyboardInput { pressed, id } => {
                    match id {
                        KeyCode::W => { kb.forward = pressed; },
                        KeyCode::S => { kb.backward = pressed; },
                        KeyCode::D => { kb.right = pressed; },
                        KeyCode::A => { kb.left = pressed; },
                        KeyCode::Other => {},
                    }
                },
                InputEvent::MouseMoved { dx, dy } => {
                    view = Vec2 { x: sat_add(view.x, dx), y: sat_add(view.y, dy) };
                },
                InputEvent::Quit => {},
            }
            i = i + 1;
        }
        proof {
            assert(all.skip(events@.len() as int) =~= Seq::<InputEvent>::empty());
        }
        let dir = movement_direction(&kb);
        InputFrame {
            frame_counter: prev.frame_counter + 1,
            movement_delta: dir,
            view_angles_delta: view,
            keyboard_state: kb,
        }
    }
}

/// Derives the movement direction from the currently held keys, by the
/// additive (non-normalizing) policy.
pub fn movement_direction(kb: &KeyboardState) -> (r: Vec2)
    ensures
        r == movement_of_spec(*kb),
        -1 <= r.x <= 1,
        -1 <= r.y <= 1,
{
    let mut x: i64 = 0;
    let mut y: i64 = 0;
    if kb.forward {
        x = x + 1;
    }
    if kb.backward {
        x = x - 1;
    }
    if kb.right {
        y = y + 1;
    }
    if kb.left {
        y = y - 1;
    }
    Vec2 { x, y }
}

} // verus!
