//! Terminal input as plain values: the keys, modifiers and events that the
//! screens and widgets react to.
use vstd::prelude::*;

verus! {

/// Modifier bit of the shift key.
pub const SHIFT: u8 = 1;

/// Modifier bit of the control key.
pub const CONTROL: u8 = 2;

/// No modifier pressed.
pub const NO_MODIFIERS: u8 = 0;

/// The key of a key event. Keys that no screen reacts to are `Other`.
#[derive(PartialEq, Eq, Structural, Clone, Copy)]
pub enum KeyCode {
    Backspace,
    Enter,
    Left,
    Right,
    Up,
    Down,
    Delete,
    Esc,
    Char(char),
    Other,
}

/// Whether a key went down, repeated, or went up.
#[derive(PartialEq, Eq, Structural, Clone, Copy)]
pub enum KeyEventKind {
    Press,
    Repeat,
    Release,
}

/// A key event: the key, the modifier bits (`SHIFT`, `CONTROL`, ...), the
/// kind, and the keyboard state bits (keypad, caps lock, num lock).
#[derive(PartialEq, Eq, Structural, Clone, Copy)]
pub struct KeyEvent {
    pub code: KeyCode,
    pub modifiers: u8,
    pub kind: KeyEventKind,
    pub state: u8,
}

/// A terminal event; only key events matter to the game.
#[derive(PartialEq, Eq, Structural, Clone, Copy)]
pub enum Event {
    Key(KeyEvent),
    Other,
}

/// The code of a key in a binding key: a character is its scalar value,
/// the other keys come after all characters.
pub open spec fn key_code_number(code: KeyCode) -> int {
    match code {
        KeyCode::Char(c) => c as int,
        KeyCode::Backspace => 0x110000,
        KeyCode::Enter => 0x110001,
        KeyCode::Left => 0x110002,
        KeyCode::Right => 0x110003,
        KeyCode::Up => 0x110004,
        KeyCode::Down => 0x110005,
        KeyCode::Delete => 0x110006,
        KeyCode::Esc => 0x110007,
        KeyCode::Other => 0x110008,
    }
}

/// The number of an event kind in a binding key.
pub open spec fn kind_number(kind: KeyEventKind) -> int {
    match kind {
        KeyEventKind::Press => 0,
        KeyEventKind::Repeat => 1,
        KeyEventKind::Release => 2,
    }
}

/// Whether `c` is one of 'A'..='Z'.
pub open spec fn is_ascii_upper(c: char) -> bool {
    'A' <= c <= 'Z'
}

/// Whether `c` is one of 'a'..='z'.
pub open spec fn is_ascii_lower(c: char) -> bool {
    'a' <= c <= 'z'
}

/// The key and modifiers of an event with the case of a letter made to agree
/// with the shift key: an upper-case letter implies shift, and a letter
/// typed with shift counts as upper case. Gives the code number and the
/// modifier bits.
pub open spec fn normalized_key(e: KeyEvent) -> (int, int) {
    match e.code {
        KeyCode::Char(c) => if is_ascii_upper(c) {
            (c as int, (e.modifiers | SHIFT) as int)
        } else if e.modifiers & SHIFT != 0 {
            (if is_ascii_lower(c) {
                c as int - 32
            } else {
                c as int
            }, e.modifiers as int)
        } else {
            (c as int, e.modifiers as int)
        },
        _ => (key_code_number(e.code), e.modifiers as int),
    }
}

/// The number under which an event is looked up in a table of key
/// bindings: two events get the same number exactly when they agree on the
/// normalized key and modifiers, the kind and the state.
pub open spec fn binding_key(e: KeyEvent) -> int {
    let (code, modifiers) = normalized_key(e);
    code + modifiers * 0x1_0000_0000 + kind_number(e.kind) * 0x100_0000_0000 + e.state
        * 0x1_0000_0000_0000
}

impl KeyCode {
    /// The number of this key in a binding key.
    pub fn code_number(&self) -> (r: u64)
        ensures
            r == key_code_number(*self),
    {
        match self {
            KeyCode::Char(c) => *c as u64,
            KeyCode::Backspace => 0x110000,
            KeyCode::Enter => 0x110001,
            KeyCode::Left => 0x110002,
            KeyCode::Right => 0x110003,
            KeyCode::Up => 0x110004,
            KeyCode::Down => 0x110005,
            KeyCode::Delete => 0x110006,
            KeyCode::Esc => 0x110007,
            KeyCode::Other => 0x110008,
        }
    }

    /// The character of a character key.
    pub fn as_char(&self) -> (r: Option<char>)
        ensures
            r == (match *self {
                KeyCode::Char(c) => Some(c),
                _ => None,
            }),
    {
        match self {
            KeyCode::Char(c) => Some(*c),
            _ => None,
        }
    }
}

impl KeyEvent {
    /// A key press of `code` with `modifiers` and no keyboard state.
    pub fn new(code: KeyCode, modifiers: u8) -> (r: KeyEvent)
        ensures
            r == (KeyEvent { code, modifiers, kind: KeyEventKind::Press, state: 0 }),
    {
        KeyEvent { code, modifiers, kind: KeyEventKind::Press, state: 0 }
    }

    /// Whether the key went down.
    pub fn is_press(&self) -> (r: bool)
        ensures
            r == (self.kind == KeyEventKind::Press),
    {
        match self.kind {
            KeyEventKind::Press => true,
            _ => false,
        }
    }

    /// The number under which this event is looked up in key bindings.
    pub fn binding_key(&self) -> (r: u64)
        ensures
            r == binding_key(*self),
    {
        let (code, modifiers): (u64, u8) = match self.code {
            KeyCode::Char(c) => {
                if 'A' <= c && c <= 'Z' {
                    (c as u64, self.modifiers | SHIFT)
                } else if self.modifiers & SHIFT != 0 {
                    if 'a' <= c && c <= 'z' {
                        (c as u64 - 32, self.modifiers)
                    } else {
                        (c as u64, self.modifiers)
                    }
                } else {
                    (c as u64, self.modifiers)
                }
            },
            _ => (self.code.code_number(), self.modifiers),
        };
        let kind: u64 = match self.kind {
            KeyEventKind::Press => 0,
            KeyEventKind::Repeat => 1,
            KeyEventKind::Release => 2,
        };
        code + modifiers as u64 * 0x1_0000_0000 + kind * 0x100_0000_0000 + self.state as u64
            * 0x1_0000_0000_0000
    }
}

} // verus!
