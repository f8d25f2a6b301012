use game_menu::mode::ComponentKind;
use game_menu::mode::Mode;
use game_menu::mode::ModeRegistry;

#[test]
fn initial_mode_is_home() {
    assert_eq!(Mode::new(), Mode::Home);
}

#[test]
fn default_mode_is_home() {
    assert_eq!(Mode::default(), Mode::Home);
}

#[test]
fn registry_maps_home_mode_to_the_home_screen() {
    let reg = ModeRegistry::new();
    assert_eq!(reg.components_for(Mode::Home).components, vec![ComponentKind::Home]);
}

#[test]
fn registry_maps_game_mode_to_dialog_and_fps_counter() {
    let reg = ModeRegistry::new();
    assert_eq!(
        reg.components_for(Mode::Game).components,
        vec![ComponentKind::Dialog, ComponentKind::FpsCounter]
    );
}
