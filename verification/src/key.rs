//! Keyboard input as the menu logic reads it: the key codes the home screen
//! reacts to, and one tag for every other key.

use vstd::prelude::*;

verus! {

/// A key press delivered by the host event loop.
#[derive(Debug, Clone, Copy, PartialEq, Eq, Structural)]
pub enum Key {
    Up,
    Down,
    Esc,
    Enter,
    /// Any key the menu does not react to.
    Other,
}

} // verus!
