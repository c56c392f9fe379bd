//! The event vocabulary shared by the capture pipeline: key transitions
//! and decoded characters.

use vstd::prelude::*;

use crate::keycode::KeyCode;

verus! {

/// Whether a physical key is currently held down or not.
#[derive(Debug, Clone, Copy, PartialEq, Eq, Structural)]
pub enum KeyState {
    Pressed,
    Released,
}

/// One unit of input handed to the dispatcher: either a physical key
/// transition or one decoded Unicode scalar value.
#[derive(Debug, Clone, Copy, PartialEq, Eq, Structural)]
pub enum Event {
    Key { scancode: KeyCode, key_state: KeyState },
    Char(char),
}

} // verus!
