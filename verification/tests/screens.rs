use mancala::app::App;
use mancala::keys::{Event, KeyCode, KeyEvent, KeyEventKind, CONTROL, NO_MODIFIERS};
use mancala::screen::exit_screen::ExitScreen;
use mancala::screen::game_screen::GameScreen;
use mancala::screen::main_menu::MainMenu;
use mancala::screen::settings_screen::{Settings, ThemeDetailWindow, ThemeListWindow};
use mancala::screen::Screen;

fn press(code: KeyCode) -> Event {
    Event::Key(KeyEvent::new(code, NO_MODIFIERS))
}

fn ctrl_c() -> Event {
    Event::Key(KeyEvent::new(KeyCode::Char('c'), CONTROL))
}

fn menu_index(s: &Screen) -> usize {
    match s {
        Screen::MainMenu(m) => m.selected_index,
        _ => panic!("expected the main menu"),
    }
}

#[test]
fn app_starts_running_in_the_default_theme() {
    let app = App::new();
    assert!(app.running);
    assert_eq!(app.theme.name, "default");
}

#[test]
fn exit_screen_stops_the_app() {
    let mut app = App::new();
    let e = ExitScreen::new();
    assert!(e.render_next);
    let s = Screen::ExitScreen(e);
    assert!(s.render_next(&mut app));
    assert!(!app.running);

    let mut app = App::new();
    let s = Screen::ExitScreen(ExitScreen { render_next: false });
    assert!(!s.render_next(&mut app));
    assert!(app.running);
    let s = s.handel_input(Event::Other, &mut app);
    assert!(!app.running);
    assert!(matches!(s, Screen::ExitScreen(_)));
}

#[test]
fn main_menu_walks_its_three_items() {
    let mut app = App::new();
    let m = MainMenu::new();
    assert_eq!(m.menu_items, vec!["Start Game", "Settings", "Exit"]);
    assert_eq!(m.selected_index, 0);
    assert!(m.render_next);
    let s = Screen::MainMenu(m);
    let s = s.handel_input(press(KeyCode::Up), &mut app);
    assert_eq!(menu_index(&s), 0);
    let s = s.handel_input(press(KeyCode::Down), &mut app);
    assert_eq!(menu_index(&s), 1);
    let s = s.handel_input(press(KeyCode::Down), &mut app);
    let s = s.handel_input(press(KeyCode::Down), &mut app);
    assert_eq!(menu_index(&s), 2);
    let s = s.handel_input(press(KeyCode::Up), &mut app);
    assert_eq!(menu_index(&s), 1);
    let release = Event::Key(KeyEvent { kind: KeyEventKind::Release, ..KeyEvent::new(KeyCode::Up, NO_MODIFIERS) });
    let s = s.handel_input(release, &mut app);
    assert_eq!(menu_index(&s), 1);
    let s = s.handel_input(press(KeyCode::Char('q')), &mut app);
    assert_eq!(menu_index(&s), 1);
    assert!(app.running);
}

#[test]
fn main_menu_render_flips_render_next() {
    let app = App::new();
    let mut s = Screen::MainMenu(MainMenu::new());
    let mut app2 = App::new();
    assert!(s.render_next(&mut app2));
    s.render(&app);
    assert!(!s.render_next(&mut app2));
    s.render(&app);
    assert!(s.render_next(&mut app2));
}

#[test]
fn main_menu_enter_opens_the_selected_screen() {
    let mut app = App::new();
    let s = Screen::MainMenu(MainMenu::new()).handel_input(press(KeyCode::Enter), &mut app);
    assert!(matches!(s, Screen::GameScreen(_)));
    let s = Screen::MainMenu(MainMenu::new())
        .handel_input(press(KeyCode::Down), &mut app)
        .handel_input(press(KeyCode::Enter), &mut app);
    assert!(matches!(s, Screen::Settings(_)));
    let s = Screen::MainMenu(MainMenu::new())
        .handel_input(press(KeyCode::Down), &mut app)
        .handel_input(press(KeyCode::Down), &mut app)
        .handel_input(press(KeyCode::Enter), &mut app);
    assert!(matches!(s, Screen::ExitScreen(ExitScreen { render_next: true })));
    let s = Screen::MainMenu(MainMenu::new()).handel_input(ctrl_c(), &mut app);
    assert!(matches!(s, Screen::ExitScreen(_)));
}

#[test]
fn menu_methods_lead_to_screens() {
    assert!(matches!(MainMenu::new().handel_exit(), Screen::ExitScreen(_)));
    assert!(matches!(MainMenu::new().handel_enter(), Screen::GameScreen(_)));
    assert_eq!(menu_index(&MainMenu::new().handel_down()), 1);
    assert_eq!(menu_index(&MainMenu::new().handel_up()), 0);
}

#[test]
fn game_screen_leaves_with_escape_or_control_c() {
    let mut app = App::new();
    let s = Screen::GameScreen(GameScreen::new());
    let mut app2 = App::new();
    assert!(s.render_next(&mut app2));
    let s = s.handel_input(press(KeyCode::Up), &mut app);
    assert!(matches!(s, Screen::GameScreen(_)));
    let s = s.handel_input(press(KeyCode::Esc), &mut app);
    assert_eq!(menu_index(&s), 0);
    let s = Screen::GameScreen(GameScreen::new()).handel_input(ctrl_c(), &mut app);
    assert!(matches!(s, Screen::ExitScreen(_)));
    assert!(matches!(GameScreen::new().exit_app(), Screen::ExitScreen(_)));
    assert!(matches!(GameScreen::new().main_menu(), Screen::MainMenu(_)));
}

fn list_index(s: &Screen) -> u16 {
    match s {
        Screen::Settings(x) => x.theme_list_window.theme_list_index,
        _ => panic!("expected the settings"),
    }
}

#[test]
fn settings_move_through_the_theme_list() {
    let mut app = App::new();
    let s = Settings::new();
    assert_eq!(s.theme_list_window.theme_list.len(), 2);
    assert_eq!(s.theme_list_window.get_selected_theme().name, "default");
    let s = Screen::Settings(s);
    let s = s.handel_input(press(KeyCode::Down), &mut app);
    assert_eq!(list_index(&s), 1);
    let s = s.handel_input(press(KeyCode::Down), &mut app);
    assert_eq!(list_index(&s), 1);
    if let Screen::Settings(x) = &s {
        assert_eq!(x.theme_list_window.get_selected_theme().name, "ema");
    }
    let s = s.handel_input(press(KeyCode::Up), &mut app);
    assert_eq!(list_index(&s), 0);
    let s = s.handel_input(press(KeyCode::Esc), &mut app);
    assert!(matches!(s, Screen::MainMenu(_)));
    let s = Screen::Settings(Settings::new()).handel_input(ctrl_c(), &mut app);
    assert!(matches!(s, Screen::ExitScreen(_)));
}

#[test]
fn settings_ignore_keys_once_a_theme_is_chosen() {
    let mut app = App::new();
    let s = Settings::new()._select_theme();
    let s = s.handel_input(press(KeyCode::Down), &mut app);
    assert_eq!(list_index(&s), 0);
    let s = match Settings::new().move_down() {
        Screen::Settings(x) => x,
        _ => panic!("settings"),
    };
    assert_eq!(s.theme_list_window.theme_list_index, 1);
    let s = match s.move_up() {
        Screen::Settings(x) => x,
        _ => panic!("settings"),
    };
    assert_eq!(s.theme_list_window.theme_list_index, 0);
}

#[test]
fn theme_list_window_moves_and_marks_redraw() {
    let mut w = ThemeListWindow::new();
    assert_eq!((w.window_width, w.window_height), (22, 15));
    let mut render_next = false;
    w.move_theme_list_index_up(&mut render_next);
    assert!(!render_next);
    w.move_theme_list_index_down(&mut render_next);
    assert!(render_next);
    assert_eq!(w.theme_list_index, 1);
    let mut render_next = false;
    w.handle_input(KeyEvent::new(KeyCode::Up, NO_MODIFIERS), &mut render_next);
    assert!(render_next);
    assert_eq!(w.theme_list_index, 0);
    let d = ThemeDetailWindow::new();
    assert_eq!((d.window_width, d.window_height, d.starting_position_width, d.starting_position_height), (40, 15, 24, 0));
    let mut r = false;
    d.handle_input(KeyEvent::new(KeyCode::Up, NO_MODIFIERS), &mut r);
    assert!(!r);
}
