use mancala::keys::{KeyCode, KeyEvent, KeyEventKind, CONTROL, NO_MODIFIERS};
use mancala::theme::Theme;
use mancala::widgets::{
    handle_window_key, move_to_new_selectable_element, populate_window, Element, InputNumberField,
    InputTextField, KeyEventResponse, Window,
};

fn key(code: KeyCode) -> KeyEvent {
    KeyEvent::new(code, NO_MODIFIERS)
}

fn text(f: &InputTextField) -> String {
    f.text.iter().collect()
}

fn number_field(width: usize, height: usize, n: i128) -> InputNumberField {
    InputNumberField::new(0, 0, width, height, n, false, Theme::default())
}

#[test]
fn text_field_keeps_the_newest_characters() {
    let mut f = InputTextField::new(0, 0, "ab".to_string(), 2, 2, false, Theme::default());
    assert!(matches!(f.handle_keypress(key(KeyCode::Char('c'))), KeyEventResponse::KeepEventConsumer));
    assert_eq!(text(&f), "abc");
    f.handle_keypress(key(KeyCode::Char('d')));
    assert_eq!(text(&f), "abcd");
    f.handle_keypress(key(KeyCode::Char('e')));
    assert_eq!(text(&f), "bcde");
    f.handle_keypress(key(KeyCode::Backspace));
    assert_eq!(text(&f), "bcd");
    f.handle_keypress(key(KeyCode::Delete));
    assert_eq!(text(&f), "bc");
    f.handle_keypress(key(KeyCode::Up));
    assert_eq!(text(&f), "bc");
}

#[test]
fn text_field_of_no_room_drops_everything() {
    let mut f = InputTextField::default();
    assert_eq!(f.width, 50);
    assert_eq!(f.height, 0);
    f.handle_keypress(key(KeyCode::Char('x')));
    assert_eq!(text(&f), "");
    f.handle_keypress(key(KeyCode::Backspace));
    assert_eq!(text(&f), "");
}

#[test]
fn text_field_rows_wrap_at_the_width() {
    let f = InputTextField::new(0, 0, "abcdefg".to_string(), 3, 4, false, Theme::default());
    let rows: Vec<String> = f.display_rows().iter().map(|r| r.iter().collect()).collect();
    assert_eq!(rows, vec!["abc", "def", "g", ""]);
}

#[test]
fn number_field_appends_digits_and_signs() {
    let mut f = number_field(5, 1, 0);
    f.handle_keypress(key(KeyCode::Char('1')));
    f.handle_keypress(key(KeyCode::Char('2')));
    assert_eq!(f.content_number, 12);
    f.handle_keypress(key(KeyCode::Char('-')));
    assert_eq!(f.content_number, -12);
    f.handle_keypress(key(KeyCode::Char('3')));
    assert_eq!(f.content_number, -123);
    f.handle_keypress(key(KeyCode::Char('-')));
    assert_eq!(f.content_number, -123);
    f.handle_keypress(key(KeyCode::Char('+')));
    assert_eq!(f.content_number, 123);
    f.handle_keypress(key(KeyCode::Char('x')));
    assert_eq!(f.content_number, 123);
    f.handle_keypress(key(KeyCode::Backspace));
    assert_eq!(f.content_number, 12);
    f.handle_keypress(key(KeyCode::Delete));
    assert_eq!(f.content_number, 1);
}

#[test]
fn number_field_drops_leading_digits_that_do_not_fit() {
    let mut f = number_field(3, 1, 12);
    f.handle_keypress(key(KeyCode::Char('5')));
    // "125" needs three characters; a field of three keeps two digits.
    assert_eq!(f.content_number, 25);
    let mut f = number_field(3, 1, -1);
    f.handle_keypress(key(KeyCode::Char('7')));
    // "-17" needs three characters; a negative number keeps one digit.
    assert_eq!(f.content_number, -7);
    let mut f = number_field(2, 1, -1);
    f.handle_keypress(key(KeyCode::Char('7')));
    assert_eq!(f.content_number, 0);
    let mut f = number_field(4, 1, -7);
    f.handle_keypress(key(KeyCode::Backspace));
    assert_eq!(f.content_number, 0);
}

#[test]
fn number_field_rows_show_the_number() {
    let f = number_field(2, 3, -1234);
    let rows: Vec<String> = f.display_rows().iter().map(|r| r.iter().collect()).collect();
    assert_eq!(rows, vec!["-1", "23", "4"]);
    let f = number_field(4, 1, i128::MIN);
    let rows: Vec<String> = f.display_rows().iter().map(|r| r.iter().collect()).collect();
    assert_eq!(rows, vec![i128::MIN.to_string()[..4].to_string()]);
}

#[test]
fn number_field_near_the_limits() {
    let mut f = number_field(41, 1, i128::MAX / 10);
    f.handle_keypress(key(KeyCode::Char('7')));
    assert_eq!(f.content_number, i128::MAX);
    let mut f = number_field(41, 1, i128::MIN / 10);
    f.handle_keypress(key(KeyCode::Char('8')));
    assert_eq!(f.content_number, i128::MIN);
    f.handle_keypress(key(KeyCode::Char('-')));
    assert_eq!(f.content_number, i128::MIN);
    let mut f = number_field(10, 1, i128::MAX / 10);
    f.handle_keypress(key(KeyCode::Char('7')));
    assert_eq!(f.content_number, i128::MAX % 1_000_000_000);
}

#[test]
fn widgets_have_centres_and_styles() {
    let mut f = InputTextField::new(3, 16, "RIGTH".to_string(), 5, 1, false, Theme::default());
    assert_eq!(f.get_elements_center(), (3, 18));
    assert!(f.get_current_style() == Theme::default().get_content_style());
    f.switch_highlight(true);
    assert!(f.is_highlighted);
    assert!(f.get_current_style() == Theme::default().get_highlight_style());
    let n = number_field(4, 3, 0);
    assert_eq!(n.get_elements_center(), (1, 2));
    let mut w = Window {
        row: 0,
        column: 50,
        width: 20,
        height: 20,
        selectable_elements: vec![],
        is_highlighted: false,
        theme: Theme::default(),
    };
    assert_eq!(w.get_elements_center(), (10, 60));
    assert!(matches!(w.handle_keypress(key(KeyCode::Char('a'))), KeyEventResponse::KeepEventConsumer));
    assert!(w.is_edge_row(0));
    assert!(w.is_edge_row(19));
    assert!(!w.is_edge_row(5));
    w.switch_highlight(true);
    assert!(w.get_current_style() == Theme::default().get_highlight_style());
}

fn highlighted(list: &[Element]) -> Vec<bool> {
    list.iter()
        .map(|e| match e {
            Element::TextField(f) => f.is_highlighted,
            Element::NumberField(f) => f.is_highlighted,
            Element::Window(w) => w.is_highlighted,
        })
        .collect()
}

#[test]
fn populate_window_selects_the_first_field() {
    let (selected, list) = populate_window();
    assert_eq!(selected, Some(0));
    assert_eq!(list.len(), 5);
    assert_eq!(highlighted(&list), vec![true, false, false, false, false]);
    let names: Vec<String> = list
        .iter()
        .map(|e| match e {
            Element::TextField(f) => f.text.iter().collect(),
            _ => String::new(),
        })
        .collect();
    assert_eq!(names, vec!["UP", "LEFT", "CENTER", "RIGTH", "DOWN"]);
}

#[test]
fn selection_moves_to_the_nearest_widget_in_the_direction() {
    let (selected, mut list) = populate_window();
    let s = move_to_new_selectable_element(selected, &mut list, KeyCode::Down);
    assert_eq!(s, Some(2));
    assert_eq!(highlighted(&list), vec![false, false, true, false, false]);
    let s = move_to_new_selectable_element(s, &mut list, KeyCode::Left);
    assert_eq!(s, Some(1));
    let s = move_to_new_selectable_element(s, &mut list, KeyCode::Left);
    assert_eq!(s, Some(1));
    let s = move_to_new_selectable_element(s, &mut list, KeyCode::Down);
    assert_eq!(s, Some(4));
    let s = move_to_new_selectable_element(s, &mut list, KeyCode::Up);
    // CENTER (distance 2) is nearer than LEFT (distance 7) and UP.
    assert_eq!(s, Some(2));
    assert_eq!(highlighted(&list), vec![false, false, true, false, false]);
}

#[test]
fn selection_starts_at_the_first_widget() {
    let (_, mut list) = populate_window();
    assert_eq!(move_to_new_selectable_element(None, &mut list, KeyCode::Right), Some(0));
    let mut empty: Vec<Element> = Vec::new();
    assert_eq!(move_to_new_selectable_element(None, &mut empty, KeyCode::Right), None);
}

#[test]
fn window_keys_move_the_selection_or_quit() {
    let (selected, mut list) = populate_window();
    let step = handle_window_key(None, selected, &mut list, key(KeyCode::Right));
    assert!(!step.quit);
    assert_eq!(step.selected_element, Some(3));
    let step = handle_window_key(None, step.selected_element, &mut list, key(KeyCode::Char('z')));
    assert_eq!(step.selected_element, Some(3));
    let release = KeyEvent { kind: KeyEventKind::Release, ..key(KeyCode::Left) };
    let step = handle_window_key(None, step.selected_element, &mut list, release);
    assert_eq!(step.selected_element, Some(3));
    let step = handle_window_key(Some(0), step.selected_element, &mut list, key(KeyCode::Char('!')));
    assert_eq!(step.event_consumer, Some(0));
    match &list[0] {
        Element::TextField(f) => assert_eq!(f.text.iter().collect::<String>(), "UP!"),
        _ => panic!("a text field"),
    }
    let step = handle_window_key(None, Some(3), &mut list, KeyEvent::new(KeyCode::Char('c'), CONTROL));
    assert!(step.quit);
}
