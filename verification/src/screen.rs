//! The screens of the application and how one leads to the next.
pub mod exit_screen;
pub mod game_screen;
pub mod main_menu;
pub mod settings_screen;
pub mod state;

pub use crate::screen::exit_screen::ExitScreen;
pub use crate::screen::game_screen::GameScreen;
pub use crate::screen::main_menu::MainMenu;
pub use crate::screen::settings_screen::Settings;
pub use crate::screen::state::State;

use vstd::prelude::*;
use crate::app::App;
use crate::keys::Event;
use crate::screen::game_screen::{game_screen_handled, game_screen_wf};
use crate::screen::main_menu::{menu_handled, menu_wf};
use crate::screen::settings_screen::{settings_handled, settings_wf};

verus! {

/// The screen that is shown.
pub enum Screen {
    MainMenu(MainMenu),
    GameScreen(GameScreen),
    Settings(Settings),
    ExitScreen(ExitScreen),
}

impl Screen {
    /// What holds of the shown screen.
    pub open spec fn inv(&self) -> bool {
        match self {
            Screen::MainMenu(s) => menu_wf(*s),
            Screen::GameScreen(s) => game_screen_wf(*s),
            Screen::Settings(s) => settings_wf(*s),
            Screen::ExitScreen(s) => true,
        }
    }

    /// Records that the shown screen is drawn: the main menu and the
    /// settings flip whether they have to be drawn again; the other screens
    /// do not change.
    pub fn render(&mut self, app: &App)
        requires
            old(self).inv(),
        ensures
            final(self).inv(),
            match *old(self) {
                Screen::MainMenu(m) => *final(self) == Screen::MainMenu(
                    MainMenu { render_next: !m.render_next, ..m },
                ),
                Screen::Settings(s) => *final(self) == Screen::Settings(
                    Settings { render_next: !s.render_next, ..s },
                ),
                _ => *final(self) == *old(self),
            },
    {
        match self {
            Screen::MainMenu(s) => s.render(app),
            Screen::GameScreen(s) => s.render(app),
            Screen::Settings(s) => s.render(app),
            Screen::ExitScreen(s) => s.render(app),
        }
    }

    /// Passes one terminal event to the shown screen and gives the screen
    /// that follows.
    pub fn handel_input(self, event: Event, app: &mut App) -> (r: Screen)
        requires
            self.inv(),
        ensures
            r.inv(),
            match self {
                Screen::MainMenu(m) => menu_handled(m, event, r) && *final(app) == *old(app),
                Screen::GameScreen(g) => game_screen_handled(g, event, r) && *final(app) == *old(
                    app,
                ),
                Screen::Settings(s) => settings_handled(s, event, r) && *final(app) == *old(app),
                Screen::ExitScreen(e) => r == Screen::ExitScreen(e) && !final(app).running
                    && final(app).theme == old(app).theme,
            },
    {
        match self {
            Screen::MainMenu(s) => s.handel_input(event, app),
            Screen::GameScreen(s) => s.handel_input(event, app),
            Screen::Settings(s) => s.handel_input(event, app),
            Screen::ExitScreen(s) => s.handel_input(event, app),
        }
    }

    /// Whether the shown screen has to be drawn again: the game screen
    /// always; the others when they say so, and the exit screen then also
    /// stops the application.
    pub fn render_next(&self, app: &mut App) -> (r: bool)
        requires
            self.inv(),
        ensures
            match *self {
                Screen::MainMenu(m) => r == m.render_next && *final(app) == *old(app),
                Screen::GameScreen(g) => r && *final(app) == *old(app),
                Screen::Settings(s) => r == s.render_next && *final(app) == *old(app),
                Screen::ExitScreen(e) => r == e.render_next && final(app).running == (old(
                    app,
                ).running && !e.render_next) && final(app).theme == old(app).theme,
            },
    {
        match self {
            Screen::MainMenu(s) => s.render_next(app),
            Screen::GameScreen(s) => s.render_next(app),
            Screen::Settings(s) => s.render_next(app),
            Screen::ExitScreen(s) => s.render_next(app),
        }
    }
}

} // verus!
