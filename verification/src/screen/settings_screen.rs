//! The settings screen: a list of themes and the details of the selected
//! one.
use vstd::prelude::*;
use crate::app::App;
use crate::bindings::{
    bind_press, bound_commands, command_for, leave_bindings, list_bindings, new_bindings, Command,
    KeyBindings,
};
use crate::keys::{binding_key, Event, KeyCode, KeyEvent, CONTROL, NO_MODIFIERS};
use crate::screen::exit_screen::ExitScreen;
use crate::screen::game_screen::leave_command;
use crate::screen::main_menu::MainMenu;
use crate::screen::state::State;
use crate::screen::Screen;
use crate::theme::{is_default_theme, is_ema_theme, Theme};

verus! {

/// The settings screen.
pub struct Settings {
    pub bindings: KeyBindings,
    pub theme_list_window: ThemeListWindow,
    pub theme_detail_window: ThemeDetailWindow,
    pub render_next: bool,
    pub theme_is_selected: bool,
}

/// The window that lists the themes, one of them selected.
pub struct ThemeListWindow {
    pub window_width: u16,
    pub window_height: u16,
    pub starting_position_width: u16,
    pub starting_position_height: u16,
    pub theme_list: Vec<Theme>,
    pub theme_list_index: u16,
    pub bindings: KeyBindings,
}

/// The window that shows the colours of the selected theme.
pub struct ThemeDetailWindow {
    pub window_width: u16,
    pub window_height: u16,
    pub starting_position_width: u16,
    pub starting_position_height: u16,
}

impl ThemeListWindow {
    /// The selected theme is in the list, and the up and down keys are
    /// bound.
    pub open spec fn inv(&self) -> bool {
        &&& self.theme_list@.len() <= u16::MAX
        &&& self.theme_list_index < self.theme_list@.len()
        &&& bound_commands(self.bindings) == list_bindings()
    }

    /// The list after "up": the theme above is selected and the screen is to
    /// be drawn, unless the first theme is selected.
    pub open spec fn moved_up(w: ThemeListWindow, render_next: bool) -> (ThemeListWindow, bool) {
        if w.theme_list_index > 0 {
            (ThemeListWindow { theme_list_index: (w.theme_list_index - 1) as u16, ..w }, true)
        } else {
            (w, render_next)
        }
    }

    /// The list after "down": the theme below is selected and the screen is
    /// to be drawn, unless the last theme is selected (the length of the
    /// list taken as a `u16`).
    pub open spec fn moved_down(w: ThemeListWindow, render_next: bool) -> (
        ThemeListWindow,
        bool,
    ) {
        if w.theme_list_index + 1 < (w.theme_list@.len() as u16) {
            (ThemeListWindow { theme_list_index: (w.theme_list_index + 1) as u16, ..w }, true)
        } else {
            (w, render_next)
        }
    }

    /// The list after `key`: up and down move the selection; other keys
    /// change nothing.
    pub open spec fn after_key(w: ThemeListWindow, render_next: bool, key: KeyEvent) -> (
        ThemeListWindow,
        bool,
    ) {
        let id = binding_key(key) as u64;
        if list_bindings().contains_key(id) {
            match list_bindings()[id] {
                Command::MoveUp => ThemeListWindow::moved_up(w, render_next),
                Command::MoveDown => ThemeListWindow::moved_down(w, render_next),
                _ => (w, render_next),
            }
        } else {
            (w, render_next)
        }
    }

    /// A list window of the default and the "ema" themes, 22 by 15 at the
    /// top left corner, with the first theme selected.
    pub fn new() -> (r: ThemeListWindow)
        ensures
            r.inv(),
            r.window_width == 22,
            r.window_height == 15,
            r.starting_position_width == 0,
            r.starting_position_height == 0,
            r.theme_list@.len() == 2,
            is_default_theme(r.theme_list@[0]),
            is_ema_theme(r.theme_list@[1]),
            r.theme_list_index == 0,
    {
        let mut theme_list: Vec<Theme> = Vec::new();
        theme_list.push(Theme::default());
        theme_list.push(Theme::ema());

        let mut bindings = new_bindings();
        bind_press(&mut bindings, KeyCode::Up, NO_MODIFIERS, Command::MoveUp);
        bind_press(&mut bindings, KeyCode::Down, NO_MODIFIERS, Command::MoveDown);
        assert(bound_commands(bindings) =~= list_bindings());

        ThemeListWindow {
            window_width: 22,
            window_height: 15,
            starting_position_width: 0,
            starting_position_height: 0,
            theme_list,
            theme_list_index: 0,
            bindings,
        }
    }

    /// Selects the theme above.
    pub fn move_theme_list_index_up(&mut self, render_next: &mut bool)
        ensures
            (*final(self), *final(render_next)) == ThemeListWindow::moved_up(
                *old(self),
                *old(render_next),
            ),
    {
        if self.theme_list_index > 0 {
            self.theme_list_index -= 1;
            *render_next = true;
        }
    }

    /// Selects the theme below.
    pub fn move_theme_list_index_down(&mut self, render_next: &mut bool)
        requires
            old(self).theme_list_index < u16::MAX,
        ensures
            (*final(self), *final(render_next)) == ThemeListWindow::moved_down(
                *old(self),
                *old(render_next),
            ),
    {
        if self.theme_list_index + 1 < self.theme_list.len() as u16 {
            self.theme_list_index += 1;
            *render_next = true;
        }
    }

    /// The selected theme.
    pub fn get_selected_theme(&self) -> (r: &Theme)
        requires
            self.theme_list_index < self.theme_list@.len(),
        ensures
            *r == self.theme_list@[self.theme_list_index as int],
    {
        &self.theme_list[self.theme_list_index as usize]
    }

    /// Takes a key: up and down move the selection.
    pub fn handle_input(&mut self, event: KeyEvent, render_next: &mut bool)
        requires
            old(self).inv(),
        ensures
            (*final(self), *final(render_next)) == ThemeListWindow::after_key(
                *old(self),
                *old(render_next),
                event,
            ),
    {
        match command_for(&self.bindings, &event) {
            Some(Command::MoveUp) => self.move_theme_list_index_up(render_next),
            Some(Command::MoveDown) => self.move_theme_list_index_down(render_next),
            _ => {},
        }
    }
}

impl ThemeDetailWindow {
    /// The detail window takes no keys.
    pub fn handle_input(&self, _event: KeyEvent, _render_next: &mut bool)
        ensures
            *final(_render_next) == *old(_render_next),
    {
    }

    /// A detail window of 40 by 15, right of the list.
    pub fn new() -> (r: ThemeDetailWindow)
        ensures
            r == (ThemeDetailWindow {
                window_width: 40,
                window_height: 15,
                starting_position_width: 24,
                starting_position_height: 0,
            }),
    {
        ThemeDetailWindow {
            window_width: 40,
            window_height: 15,
            starting_position_width: 24,
            starting_position_height: 0,
        }
    }
}

/// The keys of the settings are bound, and the theme list is well formed.
pub open spec fn settings_wf(s: Settings) -> bool {
    &&& bound_commands(s.bindings) == leave_bindings()
    &&& s.theme_list_window.inv()
}

/// Settings just opened: the theme list of `ThemeListWindow::new` with the
/// first theme selected, the detail window, to be drawn, no theme chosen.
pub open spec fn is_new_settings(s: Settings) -> bool {
    &&& settings_wf(s)
    &&& s.theme_list_window.theme_list@.len() == 2
    &&& is_default_theme(s.theme_list_window.theme_list@[0])
    &&& is_ema_theme(s.theme_list_window.theme_list@[1])
    &&& s.theme_list_window.theme_list_index == 0
    &&& s.theme_detail_window == ThemeDetailWindow {
        window_width: 40,
        window_height: 15,
        starting_position_width: 24,
        starting_position_height: 0,
    }
    &&& s.render_next
    &&& !s.theme_is_selected
}

/// How the settings answer an event: a key bound to control-C or Escape
/// leaves them; any other key goes to the theme list while no theme is
/// chosen; other events keep them as they are.
pub open spec fn settings_handled(s: Settings, event: Event, r: Screen) -> bool {
    match event {
        Event::Key(k) => if leave_bindings().contains_key(binding_key(k) as u64) {
            leave_command(leave_bindings()[binding_key(k) as u64], r)
        } else if !s.theme_is_selected {
            let (w, n) = ThemeListWindow::after_key(s.theme_list_window, s.render_next, k);
            r == Screen::Settings(Settings { theme_list_window: w, render_next: n, ..s })
        } else {
            r == Screen::Settings(s)
        },
        Event::Other => r == Screen::Settings(s),
    }
}

impl Settings {
    /// New settings.
    pub fn new() -> (r: Settings)
        ensures
            is_new_settings(r),
    {
        let mut bindings = new_bindings();
        bind_press(&mut bindings, KeyCode::Char('c'), CONTROL, Command::ExitApp);
        bind_press(&mut bindings, KeyCode::Esc, NO_MODIFIERS, Command::MainMenu);
        assert(bound_commands(bindings) =~= leave_bindings());

        Settings {
            bindings,
            theme_list_window: ThemeListWindow::new(),
            theme_detail_window: ThemeDetailWindow::new(),
            render_next: true,
            theme_is_selected: false,
        }
    }

    /// Goes back to a new main menu.
    pub fn main_menu(self) -> (r: Screen)
        ensures
            r matches Screen::MainMenu(m) && crate::screen::main_menu::is_new_menu(m),
    {
        Screen::MainMenu(MainMenu::new())
    }

    /// Leaves for the exit screen.
    pub fn exit_app(self) -> (r: Screen)
        ensures
            r == Screen::ExitScreen(ExitScreen { render_next: true }),
    {
        Screen::ExitScreen(ExitScreen::new())
    }

    /// Selects the theme above.
    pub fn move_up(self) -> (r: Screen)
        ensures
            ({
                let (w, n) = ThemeListWindow::moved_up(self.theme_list_window, self.render_next);
                r == Screen::Settings(Settings { theme_list_window: w, render_next: n, ..self })
            }),
    {
        let mut s = self;
        s.theme_list_window.move_theme_list_index_up(&mut s.render_next);
        Screen::Settings(s)
    }

    /// Selects the theme below.
    pub fn move_down(self) -> (r: Screen)
        requires
            settings_wf(self),
        ensures
            ({
                let (w, n) = ThemeListWindow::moved_down(self.theme_list_window, self.render_next);
                r == Screen::Settings(Settings { theme_list_window: w, render_next: n, ..self })
            }),
    {
        let mut s = self;
        s.theme_list_window.move_theme_list_index_down(&mut s.render_next);
        Screen::Settings(s)
    }

    /// Marks the selected theme as chosen.
    pub fn _select_theme(self) -> (r: Screen)
        ensures
            r == Screen::Settings(Settings { theme_is_selected: true, ..self }),
    {
        let mut s = self;
        s.theme_is_selected = true;
        Screen::Settings(s)
    }
}

impl State for Settings {
    open spec fn inv(&self) -> bool {
        settings_wf(*self)
    }

    /// Drawing the settings flips whether they have to be drawn again.
    fn render(&mut self, _app: &App)
        ensures
            *final(self) == (Settings { render_next: !old(self).render_next, ..*old(self) }),
    {
        self.render_next = !self.render_next;
    }

    /// A key bound to control-C or Escape leaves the screen; any other key
    /// goes to the theme list while no theme is chosen (and to the detail
    /// window, which ignores it, afterwards); other events keep the screen.
    fn handel_input(self, event: Event, _app: &mut App) -> (r: Screen)
        ensures
            r.inv(),
            *final(_app) == *old(_app),
            settings_handled(self, event, r),
    {
        match event {
            Event::Key(event) => {
                match command_for(&self.bindings, &event) {
                    Some(Command::ExitApp) => self.exit_app(),
                    Some(Command::MainMenu) => self.main_menu(),
                    _ => {
                        let mut s = self;
                        if !s.theme_is_selected {
                            s.theme_list_window.handle_input(event, &mut s.render_next);
                        } else {
                            s.theme_detail_window.handle_input(event, &mut s.render_next);
                        }
                        return Screen::Settings(s);
                    },
                }
            },
            _ => { Screen::Settings(self) },
        }
    }

    /// Whether the settings have to be drawn again.
    fn render_next(&self, _app: &mut App) -> (r: bool)
        ensures
            r == self.render_next,
            *final(_app) == *old(_app),
    {
        self.render_next
    }
}

} // verus!
