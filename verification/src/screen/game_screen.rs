//! The screen of a game in progress.
use vstd::prelude::*;
use crate::app::App;
use crate::bindings::{
    bind_press, bound_commands, command_for, leave_bindings, new_bindings, Command, KeyBindings,
};
use crate::keys::{binding_key, Event, KeyCode, KeyEventKind, CONTROL, NO_MODIFIERS};
use crate::screen::exit_screen::ExitScreen;
use crate::screen::main_menu::{is_new_menu, MainMenu};
use crate::screen::state::State;
use crate::screen::Screen;

verus! {

/// The game screen; control-C quits and Escape goes back to the menu.
pub struct GameScreen {
    pub bindings: KeyBindings,
}

/// The keys of a screen that can only be left are bound.
pub open spec fn game_screen_wf(g: GameScreen) -> bool {
    bound_commands(g.bindings) == leave_bindings()
}

/// The screen that follows `command` on the game screen: control-C leads to
/// the exit screen, Escape to a new main menu.
pub open spec fn leave_command(command: Command, r: Screen) -> bool {
    match command {
        Command::ExitApp => r == Screen::ExitScreen(ExitScreen { render_next: true }),
        Command::MainMenu => r matches Screen::MainMenu(m) && is_new_menu(m),
        _ => true,
    }
}

/// How the game screen answers an event: a key press bound to control-C or
/// Escape leaves it; every other event keeps it.
pub open spec fn game_screen_handled(g: GameScreen, event: Event, r: Screen) -> bool {
    match event {
        Event::Key(k) => if k.kind == KeyEventKind::Press && leave_bindings().contains_key(
            binding_key(k) as u64,
        ) {
            leave_command(leave_bindings()[binding_key(k) as u64], r)
        } else {
            r == Screen::GameScreen(g)
        },
        Event::Other => r == Screen::GameScreen(g),
    }
}

impl GameScreen {
    /// A game screen with its key bindings.
    pub fn new() -> (r: GameScreen)
        ensures
            game_screen_wf(r),
    {
        let mut bindings = new_bindings();
        bind_press(&mut bindings, KeyCode::Char('c'), CONTROL, Command::ExitApp);
        bind_press(&mut bindings, KeyCode::Esc, NO_MODIFIERS, Command::MainMenu);
        assert(bound_commands(bindings) =~= leave_bindings());
        GameScreen { bindings }
    }

    /// Leaves for the exit screen.
    pub fn exit_app(self) -> (r: Screen)
        ensures
            r == Screen::ExitScreen(ExitScreen { render_next: true }),
    {
        Screen::ExitScreen(ExitScreen::new())
    }

    /// Goes back to a new main menu.
    pub fn main_menu(self) -> (r: Screen)
        ensures
            r matches Screen::MainMenu(m) && is_new_menu(m),
    {
        Screen::MainMenu(MainMenu::new())
    }
}

impl State for GameScreen {
    open spec fn inv(&self) -> bool {
        game_screen_wf(*self)
    }

    /// Drawing the game screen changes none of its state.
    fn render(&mut self, _app: &App)
        ensures
            *final(self) == *old(self),
    {
    }

    /// A key press bound to control-C or Escape leaves the screen; every
    /// other event keeps it.
    fn handel_input(self, event: Event, _app: &mut App) -> (r: Screen)
        ensures
            r.inv(),
            *final(_app) == *old(_app),
            game_screen_handled(self, event, r),
    {
        match event {
            Event::Key(event) => {
                if event.is_press() {
                    return match command_for(&self.bindings, &event) {
                        Some(Command::ExitApp) => self.exit_app(),
                        Some(Command::MainMenu) => self.main_menu(),
                        _ => Screen::GameScreen(self),
                    };
                }
                Screen::GameScreen(self)
            },
            _ => { Screen::GameScreen(self) },
        }
    }

    /// The game screen is drawn on every frame.
    fn render_next(&self, _app: &mut App) -> (r: bool)
        ensures
            r,
            *final(_app) == *old(_app),
    {
        true
    }
}

} // verus!
