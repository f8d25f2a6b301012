//! The home screen controller: it owns the menu list, turns key presses into
//! abstract actions, applies home intents to the selection, and maps a
//! confirmed selection to an application effect.

use crate::action::Action;
use crate::config::Config;
use crate::key::Key;
use crate::list::spec_next;
use crate::list::spec_previous;
use crate::list::StatefulList;
use crate::mode::Mode;
use tokio::sync::mpsc::UnboundedSender;
use vstd::prelude::*;

verus! {

/// An intent scoped to the home screen.
///
/// `Into` belongs to the host's action vocabulary but is never produced by
/// key translation nor consumed by `update`.
#[derive(Debug, Clone, Copy, PartialEq, Eq, Structural)]
pub enum HomeAction {
    Up,
    Down,
    Cancel,
    Into,
}

/// The one error the home screen can surface. It is recoverable: the host
/// decides whether to log it and go on.
#[derive(Debug, Clone, Copy, PartialEq, Eq, Structural)]
pub enum HomeError {
    /// Enter was pressed while the selection index has no mapped effect:
    /// index 1, index 2, or no selection at all.
    SelectionUnmapped,
}

impl HomeError {
    /// A short description for the host to log.
    pub fn message(&self) -> (s: &'static str)
        ensures
            s@ == "selection has no mapped action"@,
    {
        "selection has no mapped action"
    }
}

/// How a home intent moves the selection of a menu of `n` entries: Up moves
/// back, Down advances (both with wraparound), Cancel clears, and every other
/// action leaves the selection alone.
pub open spec fn spec_update_sel(sel: Option<usize>, n: nat, action: Action) -> Option<usize> {
    match action {
        Action::Home(HomeAction::Up) => spec_previous(sel, n),
        Action::Home(HomeAction::Down) => spec_next(sel, n),
        Action::Home(HomeAction::Cancel) => None,
        _ => sel,
    }
}

/// The result of one key press while the selection stands at `sel`: the
/// arrows and Escape become home intents; Enter maps index 0 to a switch to
/// game mode and index 3 to Quit, and fails on every other selection; any
/// other key produces nothing.
pub open spec fn spec_handle_key(sel: Option<usize>, key: Key) -> Result<
    Option<Action>,
    HomeError,
> {
    match key {
        Key::Up => Ok(Some(Action::Home(HomeAction::Up))),
        Key::Down => Ok(Some(Action::Home(HomeAction::Down))),
        Key::Esc => Ok(Some(Action::Home(HomeAction::Cancel))),
        Key::Enter => match sel {
            Some(i) => if i == 0 {
                Ok(Some(Action::Mode(Mode::Game)))
            } else if i == 3 {
                Ok(Some(Action::Quit))
            } else {
                Err(HomeError::SelectionUnmapped)
            },
            None => Err(HomeError::SelectionUnmapped),
        },
        Key::Other => Ok(None),
    }
}

/// The home screen: a fixed menu of four entries with at most one selected,
/// plus the handles the host registers at startup.
pub struct Home {
    command_tx: Option<UnboundedSender<Action>>,
    config: Config,
    titles: StatefulList<String>,
}

impl Home {
    /// The menu labels, in order, as sequences of characters.
    pub closed spec fn labels(self) -> Seq<Seq<char>> {
        Seq::new(self.titles.items_view().len(), |i: int| self.titles.items_view()[i]@)
    }

    /// The selected index, if any.
    pub closed spec fn sel(self) -> Option<usize> {
        self.titles.sel()
    }

    /// The stored configuration.
    pub closed spec fn cfg(self) -> Config {
        self.config
    }

    /// The stored outbound action channel, if one has been registered.
    pub closed spec fn action_handler(self) -> Option<UnboundedSender<Action>> {
        self.command_tx
    }

    /// Whether an outbound action channel has been registered.
    pub open spec fn has_action_handler(self) -> bool {
        self.action_handler() is Some
    }

    /// The selection, when present, lies within the menu.
    pub open spec fn wf(self) -> bool {
        self.sel() matches Some(i) ==> (i as int) < self.labels().len()
    }

    /// A fresh home screen: the four menu entries, nothing selected, no
    /// channel registered, the default configuration.
    pub fn new() -> (r: Home)
        ensures
            r.wf(),
            r.sel() is None,
            !r.has_action_handler(),
            r.labels().len() == 4,
            r.labels()[0] == "New Game"@,
            r.labels()[1] == "Load Game"@,
            r.labels()[2] == "New Config"@,
            r.labels()[3] == "Exit"@,
    {
        let items: Vec<String> = vec![
            "New Game".to_owned(),
            "Load Game".to_owned(),
            "New Config".to_owned(),
            "Exit".to_owned(),
        ];
        Home { command_tx: None, config: Config::default(), titles: StatefulList::with_items(items) }
    }

    /// Store the outbound action channel the host supplies once at startup.
    pub fn register_action_handler(&mut self, tx: UnboundedSender<Action>) -> (r: Result<
        (),
        HomeError,
    >)
        ensures
            r is Ok,
            final(self).action_handler() == Some(tx),
            final(self).sel() == old(self).sel(),
            final(self).labels() == old(self).labels(),
            final(self).cfg() == old(self).cfg(),
    {
        self.command_tx = Some(tx);
        proof {
            assert(self.labels() =~= old(self).labels());
        }
        Ok(())
    }

    /// Store the configuration the host supplies once at startup.
    pub fn register_config_handler(&mut self, config: Config) -> (r: Result<(), HomeError>)
        ensures
            r is Ok,
            final(self).cfg() == config,
            final(self).sel() == old(self).sel(),
            final(self).labels() == old(self).labels(),
            final(self).action_handler() == old(self).action_handler(),
    {
        self.config = config;
        proof {
            assert(self.labels() =~= old(self).labels());
        }
        Ok(())
    }

    /// Apply a home intent to the selection: Up moves back, Down advances,
    /// Cancel clears; every other action is ignored. Emits no action.
    pub fn update(&mut self, action: Action) -> (r: Result<Option<Action>, HomeError>)
        ensures
            r == Ok::<Option<Action>, HomeError>(None),
            final(self).sel() == spec_update_sel(old(self).sel(), old(self).labels().len(), action),
            final(self).labels() == old(self).labels(),
            final(self).cfg() == old(self).cfg(),
            final(self).action_handler() == old(self).action_handler(),
            old(self).wf() ==> final(self).wf(),
    {
        match action {
            Action::Home(HomeAction::Up) => self.titles.previous(),
            Action::Home(HomeAction::Down) => self.titles.next(),
            Action::Home(HomeAction::Cancel) => self.titles.unselect(),
            _ => {},
        }
        proof {
            assert(self.labels() =~= old(self).labels());
        }
        Ok(None)
    }

    /// Translate one key press into an action, reading the current selection
    /// and never changing it.
    pub fn handle_key_events(&self, key: Key) -> (r: Result<Option<Action>, HomeError>)
        ensures
            r == spec_handle_key(self.sel(), key),
    {
        match key {
            Key::Up => Ok(Some(Action::Home(HomeAction::Up))),
            Key::Down => Ok(Some(Action::Home(HomeAction::Down))),
            Key::Esc => Ok(Some(Action::Home(HomeAction::Cancel))),
            Key::Enter => match self.titles.selected() {
                Some(i) => if i == 0 {
                    Ok(Some(Action::Mode(Mode::Game)))
                } else if i == 3 {
                    Ok(Some(Action::Quit))
                } else {
                    Err(HomeError::SelectionUnmapped)
                },
                None => Err(HomeError::SelectionUnmapped),
            },
            Key::Other => Ok(None),
        }
    }

    /// The selected index, if any: a pure read.
    pub fn selected(&self) -> (r: Option<usize>)
        ensures
            r == self.sel(),
    {
        self.titles.selected()
    }

    /// The number of menu entries.
    pub fn len(&self) -> (n: usize)
        ensures
            n == self.labels().len(),
    {
        self.titles.len()
    }

    /// The label of menu entry `i`.
    pub fn label_at(&self, i: usize) -> (r: &String)
        requires
            (i as int) < self.labels().len(),
        ensures
            r@ == self.labels()[i as int],
    {
        self.titles.get(i)
    }
}

/// Law: whatever the selection, a Cancel intent clears it, and a following
/// Down intent then selects the first entry of a non-empty menu.
pub proof fn lemma_cancel_then_down(sel: Option<usize>, n: nat)
    requires
        n >= 1,
    ensures
        ({
            let cleared = spec_update_sel(sel, n, Action::Home(HomeAction::Cancel));
            &&& cleared is None
            &&& spec_update_sel(cleared, n, Action::Home(HomeAction::Down)) == Some(0usize)
        }),
{
}

} // verus!
