use mancala::cursor::{
    move_selected_pit_down, move_selected_pit_left, move_selected_pit_right, move_selected_pit_up,
};
use mancala::keys::{KeyCode, KeyEvent, KeyEventKind, CONTROL, NO_MODIFIERS, SHIFT};

fn up(n: u8) -> u8 {
    let mut s = n;
    move_selected_pit_up(&mut s);
    s
}

fn down(n: u8) -> u8 {
    let mut s = n;
    move_selected_pit_down(&mut s);
    s
}

fn left(n: u8) -> u8 {
    let mut s = n;
    move_selected_pit_left(&mut s);
    s
}

fn right(n: u8) -> u8 {
    let mut s = n;
    move_selected_pit_right(&mut s);
    s
}

#[test]
fn cursor_up_moves_towards_the_top_row() {
    assert_eq!(up(0), 0);
    assert_eq!(up(3), 2);
    assert_eq!(up(5), 4);
    assert_eq!(up(7), 8);
    assert_eq!(up(11), 12);
    assert_eq!(up(12), 12);
    assert_eq!(up(6), 6);
    assert_eq!(up(13), 13);
}

#[test]
fn cursor_down_moves_towards_the_bottom_row() {
    assert_eq!(down(0), 1);
    assert_eq!(down(4), 5);
    assert_eq!(down(5), 5);
    assert_eq!(down(7), 7);
    assert_eq!(down(8), 7);
    assert_eq!(down(12), 11);
    assert_eq!(down(200), 200);
}

#[test]
fn cursor_left_and_right_cross_the_board() {
    assert_eq!(right(0), 12);
    assert_eq!(right(5), 7);
    assert_eq!(right(7), 7);
    assert_eq!(right(8), 5);
    assert_eq!(right(12), 1);
    assert_eq!(left(0), 0);
    assert_eq!(left(1), 12);
    assert_eq!(left(5), 8);
    assert_eq!(left(7), 5);
    assert_eq!(left(12), 0);
    assert_eq!(left(13), 13);
}

#[test]
fn cursor_moves_undo_each_other() {
    for n in 0..6u8 {
        assert_eq!(left(right(n)), n);
    }
    for n in 7..13u8 {
        assert_eq!(right(left(n)), n);
    }
    for n in [1u8, 2, 3, 4, 5, 7, 8, 9, 10, 11] {
        assert_eq!(down(up(n)), n);
    }
    for n in [0u8, 1, 2, 3, 4, 8, 9, 10, 11, 12] {
        assert_eq!(up(down(n)), n);
    }
}

#[test]
fn cursor_stays_on_playable_pits() {
    let playable = |n: u8| n < 6 || (7..13).contains(&n);
    for n in (0..13u8).filter(|&n| playable(n)) {
        for m in [up(n), down(n), left(n), right(n)] {
            assert!(playable(m), "{} -> {}", n, m);
        }
    }
}

#[test]
fn key_event_new_is_a_press() {
    let e = KeyEvent::new(KeyCode::Enter, NO_MODIFIERS);
    assert!(e.is_press());
    assert!(e.kind == KeyEventKind::Press);
    assert_eq!(e.state, 0);
    let r = KeyEvent { kind: KeyEventKind::Release, ..e };
    assert!(!r.is_press());
    assert_eq!(KeyCode::Char('q').as_char(), Some('q'));
    assert_eq!(KeyCode::Up.as_char(), None);
}

#[test]
fn binding_keys_tell_events_apart() {
    let ctrl_c = KeyEvent::new(KeyCode::Char('c'), CONTROL).binding_key();
    assert_eq!(ctrl_c, 'c' as u64 + 2 * 0x1_0000_0000);
    assert_ne!(ctrl_c, KeyEvent::new(KeyCode::Char('c'), NO_MODIFIERS).binding_key());
    assert_ne!(ctrl_c, KeyEvent::new(KeyCode::Char('C'), CONTROL).binding_key());
    let release = KeyEvent { kind: KeyEventKind::Release, ..KeyEvent::new(KeyCode::Char('c'), CONTROL) };
    assert_ne!(ctrl_c, release.binding_key());
    assert_ne!(
        KeyEvent::new(KeyCode::Up, NO_MODIFIERS).binding_key(),
        KeyEvent::new(KeyCode::Down, NO_MODIFIERS).binding_key()
    );
}

#[test]
fn binding_keys_make_letter_case_agree_with_shift() {
    // An upper-case letter counts as typed with shift, and a letter typed
    // with shift counts as upper case.
    let upper = KeyEvent::new(KeyCode::Char('A'), NO_MODIFIERS).binding_key();
    let shifted = KeyEvent::new(KeyCode::Char('a'), SHIFT).binding_key();
    let both = KeyEvent::new(KeyCode::Char('A'), SHIFT).binding_key();
    assert_eq!(upper, shifted);
    assert_eq!(upper, both);
    assert_ne!(upper, KeyEvent::new(KeyCode::Char('a'), NO_MODIFIERS).binding_key());
    assert_eq!(
        KeyEvent::new(KeyCode::Char('1'), SHIFT).binding_key(),
        '1' as u64 + 0x1_0000_0000
    );
}
