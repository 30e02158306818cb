//! The fixed binding from movement actions to keys.

use vstd::prelude::*;
use crate::input_event::KeyCode;

verus! {

/// Maps the four movement actions to their bound keys.
pub struct InputMap {}

impl InputMap {
    pub fn forward(&self) -> (r: KeyCode)
        ensures
            r == KeyCode::W,
    {
        KeyCode::W
    }

    pub fn backward(&self) -> (r: KeyCode)
        ensures
            r == KeyCode::S,
    {
        KeyCode::S
    }

    pub fn right(&self) -> (r: KeyCode)
        ensures
            r == KeyCode::D,
    {
        KeyCode::D
    }

    pub fn left(&self) -> (r: KeyCode)
        ensures
            r == KeyCode::A,
    {
        KeyCode::A
    }
}

} // verus!
