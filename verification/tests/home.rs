use game_menu::action::Action;
use game_menu::config::Config;
use game_menu::home::Home;
use game_menu::home::HomeAction;
use game_menu::home::HomeError;
use game_menu::key::Key;
use game_menu::mode::Mode;

/// Press one key as the host event loop would: translate it, route a home
/// intent back into `update`, and hand any top-level effect (or error) back.
fn press(home: &mut Home, key: Key) -> Result<Option<Action>, HomeError> {
    match home.handle_key_events(key) {
        Ok(Some(Action::Home(intent))) => {
            home.update(Action::Home(intent)).unwrap();
            Ok(None)
        }
        other => other,
    }
}

#[test]
fn new_home_has_four_entries_and_no_selection() {
    let h = Home::new();
    assert_eq!(h.len(), 4);
    assert_eq!(h.selected(), None);
    assert_eq!(h.label_at(0), "New Game");
    assert_eq!(h.label_at(1), "Load Game");
    assert_eq!(h.label_at(2), "New Config");
    assert_eq!(h.label_at(3), "Exit");
}

#[test]
fn down_to_exit_then_enter_quits() {
    let mut h = Home::new();
    press(&mut h, Key::Down).unwrap();
    assert_eq!(h.selected(), Some(0));
    press(&mut h, Key::Down).unwrap();
    assert_eq!(h.selected(), Some(1));
    press(&mut h, Key::Down).unwrap();
    press(&mut h, Key::Down).unwrap();
    assert_eq!(h.selected(), Some(3));
    assert_eq!(press(&mut h, Key::Enter), Ok(Some(Action::Quit)));
}

#[test]
fn enter_on_first_entry_switches_to_game_mode() {
    let mut h = Home::new();
    press(&mut h, Key::Down).unwrap();
    assert_eq!(h.selected(), Some(0));
    assert_eq!(press(&mut h, Key::Enter), Ok(Some(Action::Mode(Mode::Game))));
}

#[test]
fn enter_on_unmapped_entry_fails_and_keeps_selection() {
    let mut h = Home::new();
    press(&mut h, Key::Down).unwrap();
    press(&mut h, Key::Down).unwrap();
    assert_eq!(h.selected(), Some(1));
    assert_eq!(press(&mut h, Key::Enter), Err(HomeError::SelectionUnmapped));
    assert_eq!(h.selected(), Some(1));
}

#[test]
fn enter_without_selection_fails() {
    let mut h = Home::new();
    assert_eq!(press(&mut h, Key::Enter), Err(HomeError::SelectionUnmapped));
    assert_eq!(h.selected(), None);
}

#[test]
fn escape_clears_selection_then_down_selects_first() {
    let mut h = Home::new();
    press(&mut h, Key::Down).unwrap();
    press(&mut h, Key::Down).unwrap();
    press(&mut h, Key::Down).unwrap();
    assert_eq!(h.selected(), Some(2));
    press(&mut h, Key::Esc).unwrap();
    assert_eq!(h.selected(), None);
    press(&mut h, Key::Down).unwrap();
    assert_eq!(h.selected(), Some(0));
}

#[test]
fn up_from_none_selects_first_and_then_wraps_back() {
    let mut h = Home::new();
    press(&mut h, Key::Up).unwrap();
    assert_eq!(h.selected(), Some(0));
    press(&mut h, Key::Up).unwrap();
    assert_eq!(h.selected(), Some(3));
}

#[test]
fn other_keys_produce_nothing() {
    let mut h = Home::new();
    assert_eq!(press(&mut h, Key::Other), Ok(None));
    assert_eq!(h.selected(), None);
}

#[test]
fn update_ignores_foreign_actions() {
    let mut h = Home::new();
    press(&mut h, Key::Down).unwrap();
    assert_eq!(h.update(Action::Home(HomeAction::Into)), Ok(None));
    assert_eq!(h.selected(), Some(0));
    assert_eq!(h.update(Action::Quit), Ok(None));
    assert_eq!(h.selected(), Some(0));
}

#[test]
fn key_translation_emits_home_intents() {
    let h = Home::new();
    assert_eq!(h.handle_key_events(Key::Up), Ok(Some(Action::Home(HomeAction::Up))));
    assert_eq!(h.handle_key_events(Key::Down), Ok(Some(Action::Home(HomeAction::Down))));
    assert_eq!(h.handle_key_events(Key::Esc), Ok(Some(Action::Home(HomeAction::Cancel))));
    assert_eq!(h.handle_key_events(Key::Other), Ok(None));
}

#[test]
fn registration_hooks_store_the_handles() {
    let mut h = Home::new();
    let (tx, mut rx) = tokio::sync::mpsc::unbounded_channel::<Action>();
    assert_eq!(h.register_action_handler(tx), Ok(()));
    assert_eq!(h.register_config_handler(Config::default()), Ok(()));
    assert_eq!(h.selected(), None);
    assert_eq!(h.len(), 4);
    assert!(rx.try_recv().is_err());
}

#[test]
fn selection_error_has_a_message() {
    assert_eq!(HomeError::SelectionUnmapped.message(), "selection has no mapped action");
}
