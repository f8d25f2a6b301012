//! Abstract actions exchanged between the host event loop and the components.

use crate::home::HomeAction;
use crate::mode::Mode;
use vstd::prelude::*;

verus! {

/// A requested state change: either an intent scoped to the home screen or a
/// top-level application effect the host must route.
#[derive(Debug, Clone, Copy, PartialEq, Eq, Structural)]
pub enum Action {
    /// An intent for the home screen to apply to its own selection state.
    Home(HomeAction),
    /// Switch the application to the given mode.
    Mode(Mode),
    /// Quit the application.
    Quit,
}

} // verus!
