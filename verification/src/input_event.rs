//! Raw input events as delivered by the windowing collaborator.

use vstd::prelude::*;

verus! {

/// The key identifiers the engine distinguishes. Keys outside the
/// movement bindings are carried as `Other` and leave the fold unchanged.
#[derive(Clone, Copy, PartialEq, Eq, Structural, Debug)]
pub enum KeyCode {
    W,
    A,
    S,
    D,
    Other,
}

/// One raw input event: a key transition, a pointer delta, or the quit
/// signal from the windowing collaborator.
#[derive(Clone, Copy, PartialEq, Eq, Structural, Debug)]
pub enum InputEvent {
    Quit,
    KeyboardInput { pressed: bool, id: KeyCode },
    MouseMoved { dx: i64, dy: i64 },
}

} // verus!
