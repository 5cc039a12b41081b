//! The menu layer: which of its four sub-menus is shown, and the window mode
//! that the fullscreen toggle asks for.
use vstd::prelude::*;

verus! {

/// The sub-menu that the menu layer shows.
#[derive(Clone, Copy, Debug, PartialEq, Eq, Structural)]
pub enum MenuState {
    Main,
    Settings,
    Credits,
    GameOver,
}

/// Whether each sub-menu container is visible.
#[derive(Clone, Copy, Debug, PartialEq, Eq, Structural)]
pub struct MenuVisibility {
    pub main: bool,
    pub settings: bool,
    pub credits: bool,
    pub game_over: bool,
}

/// The window mode that the fullscreen toggle selects.
#[derive(Clone, Copy, Debug, PartialEq, Eq, Structural)]
pub enum WindowMode {
    Fullscreen,
    Windowed,
}

/// The visibility for `state`: exactly the container of `state` is shown.
pub open spec fn spec_visibility(state: MenuState) -> MenuVisibility {
    MenuVisibility {
        main: state == MenuState::Main,
        settings: state == MenuState::Settings,
        credits: state == MenuState::Credits,
        game_over: state == MenuState::GameOver,
    }
}

/// How many containers are visible.
pub open spec fn visible_count(v: MenuVisibility) -> int {
    (if v.main { 1int } else { 0int }) + (if v.settings { 1int } else { 0int }) + (if v.credits {
        1int
    } else {
        0int
    }) + (if v.game_over { 1int } else { 0int })
}

/// The menu layer's state.
#[derive(Clone, Copy, Debug, PartialEq, Eq, Structural)]
pub struct MenuLayer {
    pub current_state: MenuState,
}

impl MenuLayer {
    /// A menu layer on the main menu.
    pub fn new() -> (m: Self)
        ensures
            m.current_state == MenuState::Main,
    {
        MenuLayer { current_state: MenuState::Main }
    }

    /// Shows `new_state`'s container and hides the others.
    pub fn switch_to_menu(&mut self, new_state: MenuState) -> (v: MenuVisibility)
        ensures
            final(self).current_state == new_state,
            v == spec_visibility(new_state),
    {
        self.current_state = new_state;
        MenuVisibility {
            main: self.current_state == MenuState::Main,
            settings: self.current_state == MenuState::Settings,
            credits: self.current_state == MenuState::Credits,
            game_over: self.current_state == MenuState::GameOver,
        }
    }

    /// Entering the scene tree: the main menu is shown.
    pub fn ready(&mut self) -> (v: MenuVisibility)
        ensures
            final(self).current_state == MenuState::Main,
            v == spec_visibility(MenuState::Main),
    {
        self.switch_to_menu(MenuState::Main)
    }

    pub fn show_main(&mut self) -> (v: MenuVisibility)
        ensures
            final(self).current_state == MenuState::Main,
            v == spec_visibility(MenuState::Main),
    {
        self.switch_to_menu(MenuState::Main)
    }

    pub fn show_settings(&mut self) -> (v: MenuVisibility)
        ensures
            final(self).current_state == MenuState::Settings,
            v == spec_visibility(MenuState::Settings),
    {
        self.switch_to_menu(MenuState::Settings)
    }

    pub fn show_credits(&mut self) -> (v: MenuVisibility)
        ensures
            final(self).current_state == MenuState::Credits,
            v == spec_visibility(MenuState::Credits),
    {
        self.switch_to_menu(MenuState::Credits)
    }

    pub fn show_game_over(&mut self) -> (v: MenuVisibility)
        ensures
            final(self).current_state == MenuState::GameOver,
            v == spec_visibility(MenuState::GameOver),
    {
        self.switch_to_menu(MenuState::GameOver)
    }

    /// The window mode for the fullscreen toggle's new value.
    pub fn on_fullscreen_toggle(toggled_on: bool) -> (mode: WindowMode)
        ensures
            mode == (if toggled_on {
                WindowMode::Fullscreen
            } else {
                WindowMode::Windowed
            }),
    {
        if toggled_on {
            WindowMode::Fullscreen
        } else {
            WindowMode::Windowed
        }
    }
}

/// Law: whatever sub-menu is selected, exactly one container is visible, and
/// it is the selected one's.
pub proof fn law_exactly_one_menu_visible(state: MenuState)
    ensures
        visible_count(spec_visibility(state)) == 1,
        spec_visibility(state).main <==> state == MenuState::Main,
        spec_visibility(state).settings <==> state == MenuState::Settings,
        spec_visibility(state).credits <==> state == MenuState::Credits,
        spec_visibility(state).game_over <==> state == MenuState::GameOver,
{
}

} // verus!
