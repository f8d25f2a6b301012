//! Application modes and the registry mapping each mode to the ordered
//! collection of UI components active while it is current.

use vstd::prelude::*;

verus! {

/// A named application screen, determining which components are active.
#[derive(Debug, Clone, Copy, PartialEq, Eq, Hash, Structural)]
pub enum Mode {
    Home,
    Game,
}

impl Mode {
    /// The mode the application starts in.
    pub fn new() -> (m: Mode)
        ensures
            m == Mode::Home,
    {
        Mode::Home
    }
}

impl Default for Mode {
    fn default() -> (m: Mode)
        ensures
            m == Mode::Home,
    {
        Mode::Home
    }
}

/// A tag naming one UI component of the application.
#[derive(Debug, Clone, Copy, PartialEq, Eq, Structural)]
pub enum ComponentKind {
    Home,
    Dialog,
    FpsCounter,
}

/// The ordered components active while one mode is current.
pub struct ModeInfo {
    pub components: Vec<ComponentKind>,
}

/// A table mapping each mode to the components active in it: built once at
/// startup, read-only afterwards.
pub struct ModeRegistry {
    home: ModeInfo,
    game: ModeInfo,
}

impl ModeRegistry {
    /// The components the registry holds for a mode, in order.
    pub closed spec fn components_of(self, m: Mode) -> Seq<ComponentKind> {
        match m {
            Mode::Home => self.home.components@,
            Mode::Game => self.game.components@,
        }
    }

    /// Build the table: the home screen is active in `Mode::Home`; the dialog
    /// and the frame counter are active in `Mode::Game`.
    pub fn new() -> (r: ModeRegistry)
        ensures
            r.components_of(Mode::Home) =~= seq![ComponentKind::Home],
            r.components_of(Mode::Game) =~= seq![
                ComponentKind::Dialog,
                ComponentKind::FpsCounter,
            ],
    {
        ModeRegistry {
            home: ModeInfo { components: vec![ComponentKind::Home] },
            game: ModeInfo { components: vec![ComponentKind::Dialog, ComponentKind::FpsCounter] },
        }
    }

    /// Look up the components active in mode `m`: a pure read.
    pub fn components_for(&self, m: Mode) -> (r: &ModeInfo)
        ensures
            r.components@ == self.components_of(m),
    {
        match m {
            Mode::Home => &self.home,
            Mode::Game => &self.game,
        }
    }
}

} // verus!
