use joyride::menu::{MenuLayer, MenuState, MenuVisibility, WindowMode};

#[test]
fn menu_starts_on_main() {
    let mut m = MenuLayer::new();
    assert_eq!(m.current_state, MenuState::Main);
    let v = m.ready();
    assert_eq!(
        v,
        MenuVisibility { main: true, settings: false, credits: false, game_over: false }
    );
}

#[test]
fn exactly_one_menu_is_visible() {
    let mut m = MenuLayer::new();
    let v = m.show_settings();
    assert_eq!(m.current_state, MenuState::Settings);
    assert_eq!(
        v,
        MenuVisibility { main: false, settings: true, credits: false, game_over: false }
    );
    let v = m.show_credits();
    assert_eq!(
        v,
        MenuVisibility { main: false, settings: false, credits: true, game_over: false }
    );
    let v = m.show_game_over();
    assert_eq!(
        v,
        MenuVisibility { main: false, settings: false, credits: false, game_over: true }
    );
    let v = m.show_main();
    assert_eq!(m.current_state, MenuState::Main);
    assert_eq!(
        v,
        MenuVisibility { main: true, settings: false, credits: false, game_over: false }
    );
    for s in [MenuState::Main, MenuState::Settings, MenuState::Credits, MenuState::GameOver] {
        let v = m.switch_to_menu(s);
        let n = [v.main, v.settings, v.credits, v.game_over].iter().filter(|b| **b).count();
        assert_eq!(n, 1);
    }
}

#[test]
fn fullscreen_toggle_selects_window_mode() {
    assert_eq!(MenuLayer::on_fullscreen_toggle(true), WindowMode::Fullscreen);
    assert_eq!(MenuLayer::on_fullscreen_toggle(false), WindowMode::Windowed);
}
