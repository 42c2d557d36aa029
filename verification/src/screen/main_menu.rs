//! The main menu: start a game, open the settings, or leave.
use vstd::prelude::*;
use crate::app::App;
use crate::bindings::{
    bind_press, bound_commands, command_for, menu_bindings, new_bindings, Command, KeyBindings,
};
use crate::keys::{binding_key, Event, KeyCode, KeyEventKind, CONTROL, NO_MODIFIERS};
use crate::screen::exit_screen::ExitScreen;
use crate::screen::game_screen::{game_screen_wf, GameScreen};
use crate::screen::settings_screen::{is_new_settings, Settings};
use crate::screen::state::State;
use crate::screen::Screen;

verus! {

/// The main menu: the items, the selected one, and whether the menu has to
/// be drawn again.
pub struct MainMenu {
    pub selected_index: usize,
    pub render_next: bool,
    pub menu_items: Vec<&'static str>,
    pub bindings: KeyBindings,
}

/// The items of the menu are "Start Game", "Settings" and "Exit".
pub open spec fn has_menu_items(m: MainMenu) -> bool {
    &&& m.menu_items@.len() == 3
    &&& m.menu_items@[0]@ == "Start Game"@
    &&& m.menu_items@[1]@ == "Settings"@
    &&& m.menu_items@[2]@ == "Exit"@
}

/// The menu has its three items and the keys of a menu bound.
pub open spec fn menu_wf(m: MainMenu) -> bool {
    &&& has_menu_items(m)
    &&& bound_commands(m.bindings) == menu_bindings()
}

/// A menu just opened: the first item selected, to be drawn.
pub open spec fn is_new_menu(m: MainMenu) -> bool {
    &&& menu_wf(m)
    &&& m.selected_index == 0
    &&& m.render_next
}

/// The menu after "up": the item above is selected and the menu is to be
/// drawn; on the first item nothing changes.
pub open spec fn menu_up(m: MainMenu) -> MainMenu {
    if m.selected_index > 0 {
        MainMenu { selected_index: (m.selected_index - 1) as usize, render_next: true, ..m }
    } else {
        m
    }
}

/// The menu after "down": the item below is selected and the menu is to be
/// drawn; on the last item nothing changes.
pub open spec fn menu_down(m: MainMenu) -> MainMenu {
    if m.selected_index < m.menu_items@.len() - 1 {
        MainMenu { selected_index: (m.selected_index + 1) as usize, render_next: true, ..m }
    } else {
        m
    }
}

/// The screen chosen with Enter: a game for the first item, the settings
/// for the second, the exit screen for the third.
pub open spec fn menu_enter(m: MainMenu, r: Screen) -> bool {
    if m.selected_index == 0 {
        r matches Screen::GameScreen(g) && game_screen_wf(g)
    } else if m.selected_index == 1 {
        r matches Screen::Settings(s) && is_new_settings(s)
    } else if m.selected_index == 2 {
        r == Screen::ExitScreen(ExitScreen { render_next: true })
    } else {
        r == Screen::MainMenu(m)
    }
}

/// The screen that follows a command in the menu.
pub open spec fn menu_command(m: MainMenu, command: Command, r: Screen) -> bool {
    match command {
        Command::MoveUp => r == Screen::MainMenu(menu_up(m)),
        Command::MoveDown => r == Screen::MainMenu(menu_down(m)),
        Command::ExitApp => r == Screen::ExitScreen(ExitScreen { render_next: true }),
        Command::Enter => menu_enter(m, r),
        Command::MainMenu => r == Screen::MainMenu(m),
    }
}

/// How the menu answers an event: a bound key press runs its command;
/// every other event keeps the menu as it is.
pub open spec fn menu_handled(m: MainMenu, event: Event, r: Screen) -> bool {
    match event {
        Event::Key(k) => if k.kind == KeyEventKind::Press && menu_bindings().contains_key(
            binding_key(k) as u64,
        ) {
            menu_command(m, menu_bindings()[binding_key(k) as u64], r)
        } else {
            r == Screen::MainMenu(m)
        },
        Event::Other => r == Screen::MainMenu(m),
    }
}

/// Law: "up" and "down" keep the menu well formed and never select past
/// its items.
pub proof fn lemma_menu_selection_stays(m: MainMenu)
    requires
        menu_wf(m),
        m.selected_index < m.menu_items@.len(),
    ensures
        menu_wf(menu_up(m)),
        menu_wf(menu_down(m)),
        menu_up(m).selected_index < m.menu_items@.len(),
        menu_down(m).selected_index < m.menu_items@.len(),
{
}

impl MainMenu {
    /// A new menu with "Start Game" selected.
    pub fn new() -> (r: MainMenu)
        ensures
            is_new_menu(r),
    {
        let mut bindings = new_bindings();
        bind_press(&mut bindings, KeyCode::Up, NO_MODIFIERS, Command::MoveUp);
        bind_press(&mut bindings, KeyCode::Down, NO_MODIFIERS, Command::MoveDown);
        bind_press(&mut bindings, KeyCode::Char('c'), CONTROL, Command::ExitApp);
        bind_press(&mut bindings, KeyCode::Enter, NO_MODIFIERS, Command::Enter);
        assert(bound_commands(bindings) =~= menu_bindings());
        let menu_items: Vec<&'static str> = vec!["Start Game", "Settings", "Exit"];
        MainMenu { selected_index: 0, render_next: true, menu_items, bindings }
    }

    /// Selects the item above.
    pub fn handel_up(self) -> (r: Screen)
        ensures
            r == Screen::MainMenu(menu_up(self)),
    {
        let mut m = self;
        if m.selected_index > 0 {
            m.selected_index -= 1;
            m.render_next = true;
        }
        Screen::MainMenu(m)
    }

    /// Selects the item below.
    pub fn handel_down(self) -> (r: Screen)
        requires
            self.menu_items@.len() >= 1,
        ensures
            r == Screen::MainMenu(menu_down(self)),
    {
        let mut m = self;
        if m.selected_index < m.menu_items.len() - 1 {
            m.selected_index += 1;
            m.render_next = true;
        }
        Screen::MainMenu(m)
    }

    /// Leaves for the exit screen.
    pub fn handel_exit(self) -> (r: Screen)
        ensures
            r == Screen::ExitScreen(ExitScreen { render_next: true }),
    {
        Screen::ExitScreen(ExitScreen::new())
    }

    /// Opens the screen of the selected item.
    pub fn handel_enter(self) -> (r: Screen)
        ensures
            menu_enter(self, r),
    {
        match self.selected_index {
            0 => { Screen::GameScreen(GameScreen::new()) },
            1 => { Screen::Settings(Settings::new()) },
            2 => { Screen::ExitScreen(ExitScreen::new()) },
            _ => Screen::MainMenu(self),
        }
    }
}

impl State for MainMenu {
    open spec fn inv(&self) -> bool {
        menu_wf(*self)
    }

    /// Drawing the menu flips whether it has to be drawn again.
    fn render(&mut self, _app: &App)
        ensures
            *final(self) == (MainMenu { render_next: !old(self).render_next, ..*old(self) }),
    {
        self.render_next = !self.render_next;
    }

    /// A bound key press moves the selection, chooses an item or leaves;
    /// every other event keeps the menu.
    fn handel_input(self, event: Event, _app: &mut App) -> (r: Screen)
        ensures
            r.inv(),
            *final(_app) == *old(_app),
            menu_handled(self, event, r),
    {
        match event {
            Event::Key(event) => {
                if event.is_press() {
                    return match command_for(&self.bindings, &event) {
                        Some(Command::MoveUp) => self.handel_up(),
                        Some(Command::MoveDown) => self.handel_down(),
                        Some(Command::ExitApp) => self.handel_exit(),
                        Some(Command::Enter) => self.handel_enter(),
                        _ => Screen::MainMenu(self),
                    };
                }
                Screen::MainMenu(self)
            },
            _ => { Screen::MainMenu(self) },
        }
    }

    /// Whether the menu has to be drawn again.
    fn render_next(&self, _app: &mut App) -> (r: bool)
        ensures
            r == self.render_next,
            *final(_app) == *old(_app),
    {
        self.render_next
    }
}

} // verus!
