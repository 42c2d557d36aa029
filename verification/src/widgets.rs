//! Selectable widgets of a window: text fields, number fields and framed
//! windows, the keys they take, and how the selection moves between them.
use vstd::prelude::*;
use crate::decimal::{
    decimal_chars, decimal_text, lemma_digits_len_bound, lemma_i128_text_len, lemma_pow10_mono,
    pow10, pow10_i128,
};
use crate::keys::{KeyCode, KeyEvent};
use crate::text::chars_of;
use crate::theme::{content_style_of, highlight_style_of, ContentStyle, Theme};

verus! {

/// What a widget asks of the window after it took a key.
pub enum KeyEventResponse {
    /// The widget keeps taking the keys.
    KeepEventConsumer,
    /// No widget takes the keys any more.
    RemoveEventConsumer,
    /// The widget at this index of the window takes the keys from now on.
    ChangeEventConsumer(usize),
}

/// The centre of a box whose top left corner is at `row`, `column`: half
/// its height down and half its width across (each half taken as a `u16`).
pub open spec fn center_of(row: u16, column: u16, width: usize, height: usize) -> (int, int) {
    (row + ((height / 2) as u16), column + ((width / 2) as u16))
}

/// The centre of a box lies on the screen.
pub open spec fn center_fits(row: u16, column: u16, width: usize, height: usize) -> bool {
    center_of(row, column, width, height).0 <= u16::MAX && center_of(row, column, width,
        height).1 <= u16::MAX
}

/// Computes the centre of a box.
fn box_center(row: u16, column: u16, width: usize, height: usize) -> (r: (u16, u16))
    requires
        center_fits(row, column, width, height),
    ensures
        r.0 == center_of(row, column, width, height).0,
        r.1 == center_of(row, column, width, height).1,
{
    let row_c = row + (height / 2) as u16;
    let col_c = column + (width / 2) as u16;
    (row_c, col_c)
}

/// The text of a text field after the character `c` is typed: it is
/// appended, and the oldest characters are dropped until at most `capacity`
/// remain.
pub open spec fn typed_text(text: Seq<char>, c: char, capacity: int) -> Seq<char> {
    let t = text.push(c);
    if t.len() > capacity {
        t.subrange(t.len() - capacity, t.len() as int)
    } else {
        t
    }
}

/// The text of a text field after `key`: a character is typed, and
/// backspace or delete removes the last character.
pub open spec fn text_after_key(text: Seq<char>, capacity: int, key: KeyEvent) -> Seq<char> {
    let t = match key.code {
        KeyCode::Char(c) => typed_text(text, c, capacity),
        _ => text,
    };
    if key.code == KeyCode::Backspace || key.code == KeyCode::Delete {
        if t.len() > 0 {
            t.drop_last()
        } else {
            t
        }
    } else {
        t
    }
}

/// The value of a decimal digit character.
pub open spec fn digit_value(c: char) -> Option<int> {
    if '0' <= c <= '9' {
        Some(c as int - '0' as int)
    } else {
        None
    }
}

/// The number after the character `c` is typed into a number field: a digit
/// is appended (away from zero, keeping the sign), '-' makes a positive
/// number negative, and '+' makes a negative number positive.
pub open spec fn typed_number(x: int, c: char) -> int {
    let x1 = match digit_value(c) {
        Some(d) => if x * 10 >= 0 {
            x * 10 + d
        } else {
            x * 10 - d
        },
        None => x,
    };
    let x2 = if c == '-' && x1 > 0 {
        -x1
    } else {
        x1
    };
    if c == '+' && x2 < 0 {
        -x2
    } else {
        x2
    }
}

/// The number once it fits a field of `capacity` characters: a number whose
/// notation is too long keeps its last `capacity - 1` digits, or its last
/// `capacity - 2` digits when it is negative (leaving room for the sign).
pub open spec fn fitted_number(x: int, capacity: int) -> int {
    if capacity > decimal_text(x).len() {
        x
    } else if x > 0 {
        x % pow10((capacity - 1) as nat)
    } else if x < 0 {
        -((-x) % pow10((capacity - 2) as nat))
    } else {
        x
    }
}

/// The number with its last digit removed (rounded towards zero).
pub open spec fn drop_last_digit(x: int) -> int {
    if x >= 0 {
        x / 10
    } else {
        -((-x) / 10)
    }
}

/// The number of a number field after `key`.
pub open spec fn number_after_key(x: int, capacity: int, key: KeyEvent) -> int {
    let x1 = match key.code {
        KeyCode::Char(c) => fitted_number(typed_number(x, c), capacity),
        _ => x,
    };
    if key.code == KeyCode::Backspace || key.code == KeyCode::Delete {
        drop_last_digit(x1)
    } else {
        x1
    }
}

/// Typing `key` into a number field holding `x` needs no number beyond the
/// range of `i128`, and a field of at least two characters.
pub open spec fn number_key_fits(x: int, capacity: int, key: KeyEvent) -> bool {
    match key.code {
        KeyCode::Char(c) => {
            &&& capacity >= 2
            &&& match digit_value(c) {
                Some(d) => if x >= 0 {
                    x * 10 + d <= i128::MAX
                } else {
                    x * 10 - d >= i128::MIN
                },
                None => true,
            }
            &&& !(c == '+' && x == i128::MIN)
        },
        _ => true,
    }
}

/// The `r`-th line of a text wrapped at `width` characters (empty past the
/// end of the text).
pub open spec fn text_row(text: Seq<char>, width: int, r: int) -> Seq<char> {
    if r * width < text.len() {
        text.subrange(
            r * width,
            if (r + 1) * width < text.len() {
                (r + 1) * width
            } else {
                text.len() as int
            },
        )
    } else {
        Seq::empty()
    }
}

/// The first `height` lines of `text` wrapped at `width` characters.
pub fn split_rows(text: &Vec<char>, width: usize, height: usize) -> (rows: Vec<Vec<char>>)
    requires
        width > 0,
        width * height <= usize::MAX,
    ensures
        rows@.len() == height,
        forall|r: int| 0 <= r < height ==> #[trigger] rows@[r]@ == text_row(text@, width as int, r),
{
    let mut rows: Vec<Vec<char>> = Vec::new();
    let mut start: usize = 0;
    assert(0 * width == 0) by (nonlinear_arith);
    for r in 0..height
        invariant
            width > 0,
            width * height <= usize::MAX,
            start == r * width,
            rows@.len() == r,
            forall|k: int| 0 <= k < r ==> #[trigger] rows@[k]@ == text_row(text@, width as int, k),
    {
        assert(start + width == (r + 1) * width) by (nonlinear_arith)
            requires
                start == r * width,
        ;
        assert((r + 1) * width <= width * height) by (nonlinear_arith)
            requires
                r < height,
        ;
        let mut line: Vec<char> = Vec::new();
        if start < text.len() {
            let end = if start + width < text.len() {
                start + width
            } else {
                text.len()
            };
            let mut i = start;
            while i < end
                invariant
                    start <= i <= end <= text@.len(),
                    line@ == text@.subrange(start as int, i as int),
                decreases end - i,
            {
                line.push(text[i]);
                i += 1;
                assert(line@ =~= text@.subrange(start as int, i as int));
            }
        }
        assert(line@ =~= text_row(text@, width as int, r as int));
        rows.push(line);
        start = start + width;
    }
    rows
}

/// A field that takes typed text and shows it wrapped over its box.
pub struct InputTextField {
    pub row: u16,
    pub column: u16,
    pub width: usize,
    pub height: usize,
    pub text: Vec<char>,
    pub is_highlighted: bool,
    pub theme: Theme,
}

impl InputTextField {
    /// An empty field, fifty characters wide and no line high, at the top
    /// left corner, in the default theme.
    pub fn default() -> (r: InputTextField)
        ensures
            r.row == 0,
            r.column == 0,
            r.text@ == Seq::<char>::empty(),
            r.width == 50,
            r.height == 0,
            !r.is_highlighted,
            crate::theme::is_default_theme(r.theme),
    {
        InputTextField {
            row: 0,
            column: 0,
            text: Vec::new(),
            width: 50,
            is_highlighted: false,
            theme: Default::default(),
            height: 0,
        }
    }

    /// A field with the given place, size, text, highlight and theme.
    pub fn new(
        row: u16,
        column: u16,
        text: String,
        width: usize,
        height: usize,
        is_highlighted: bool,
        theme: Theme,
    ) -> (r: InputTextField)
        ensures
            r.row == row,
            r.column == column,
            r.text@ == text@,
            r.width == width,
            r.height == height,
            r.is_highlighted == is_highlighted,
            r.theme == theme,
    {
        InputTextField {
            row,
            column,
            text: chars_of(text.as_str()),
            width,
            is_highlighted,
            theme,
            height,
        }
    }

    /// The highlight style of the theme when highlighted, the normal style
    /// otherwise.
    pub fn get_current_style(&self) -> (r: ContentStyle)
        ensures
            r == (if self.is_highlighted {
                highlight_style_of(self.theme)
            } else {
                content_style_of(self.theme)
            }),
    {
        match self.is_highlighted {
            true => self.theme.get_highlight_style(),
            false => self.theme.get_content_style(),
        }
    }

    /// Takes a key: a character is appended (dropping the oldest characters
    /// so that the text fits the box), backspace and delete remove the last
    /// character. The field keeps taking keys.
    pub fn handle_keypress(&mut self, key: KeyEvent) -> (r: KeyEventResponse)
        requires
            key.code is Char ==> old(self).width * old(self).height <= usize::MAX,
        ensures
            final(self).text@ == text_after_key(
                old(self).text@,
                old(self).width * old(self).height,
                key,
            ),
            final(self).row == old(self).row,
            final(self).column == old(self).column,
            final(self).width == old(self).width,
            final(self).height == old(self).height,
            final(self).is_highlighted == old(self).is_highlighted,
            final(self).theme == old(self).theme,
            key.code is Char ==> final(self).text@.len() <= old(self).width * old(self).height,
            r is KeepEventConsumer,
    {
        match key.code.as_char() {
            None => {},
            Some(c) => {
                self.text.push(c);
                let ghost t = self.text@;
                while (self.width * self.height) < self.text.len()
                    invariant
                        self.width == old(self).width,
                        self.height == old(self).height,
                        self.width * self.height <= usize::MAX,
                        t.len() >= self.text@.len(),
                        self.text@ == t.subrange(t.len() - self.text@.len(), t.len() as int),
                        self.text@.len() >= self.width * self.height || self.text@.len() == t.len(),
                        self.row == old(self).row,
                        self.column == old(self).column,
                        self.is_highlighted == old(self).is_highlighted,
                        self.theme == old(self).theme,
                    decreases self.text@.len(),
                {
                    self.text.remove(0);
                    assert(self.text@ =~= t.subrange(t.len() - self.text@.len(), t.len() as int));
                }
                assert(self.text@ =~= typed_text(old(self).text@, c, self.width * self.height));
            },
        }
        if key.code == KeyCode::Backspace || key.code == KeyCode::Delete {
            self.text.pop();
        }
        KeyEventResponse::KeepEventConsumer
    }

    /// The lines the field shows: its text wrapped at its width, one line
    /// per row of its box.
    pub fn display_rows(&self) -> (rows: Vec<Vec<char>>)
        requires
            self.width > 0,
            self.width * self.height <= usize::MAX,
        ensures
            rows@.len() == self.height,
            forall|r: int|
                0 <= r < self.height ==> #[trigger] rows@[r]@ == text_row(
                    self.text@,
                    self.width as int,
                    r,
                ),
    {
        split_rows(&self.text, self.width, self.height)
    }

    /// Sets whether the field is highlighted.
    pub fn switch_highlight(&mut self, new_state: bool)
        ensures
            *final(self) == (InputTextField { is_highlighted: new_state, ..*old(self) }),
    {
        self.is_highlighted = new_state;
    }

    /// The centre of the field's box.
    pub fn get_elements_center(&self) -> (r: (u16, u16))
        requires
            center_fits(self.row, self.column, self.width, self.height),
        ensures
            r.0 == center_of(self.row, self.column, self.width, self.height).0,
            r.1 == center_of(self.row, self.column, self.width, self.height).1,
    {
        box_center(self.row, self.column, self.width, self.height)
    }
}

/// The value of `c` as a decimal digit.
fn to_digit(c: char) -> (r: Option<u32>)
    ensures
        r matches Some(d) ==> digit_value(c) == Some(d as int),
        r is None ==> digit_value(c) is None,
{
    if '0' <= c && c <= '9' {
        Some((c as u32) - ('0' as u32))
    } else {
        None
    }
}

/// The remainder of `x` divided by `p`, with the sign of `x` (the `%` of
/// Rust).
fn remainder(x: i128, p: i128) -> (r: i128)
    requires
        p > 0,
    ensures
        r == (if x >= 0 {
            (x as int) % (p as int)
        } else {
            -((-(x as int)) % (p as int))
        }),
{
    if x >= 0 {
        ((x as u128) % (p as u128)) as i128
    } else {
        let magnitude: u128 = (-(x + 1)) as u128 + 1;
        -(((magnitude % (p as u128))) as i128)
    }
}

/// A field that takes a number typed digit by digit.
pub struct InputNumberField {
    pub row: u16,
    pub column: u16,
    pub width: usize,
    pub height: usize,
    pub content_number: i128,
    pub is_highlighted: bool,
    pub theme: Theme,
}

impl InputNumberField {
    /// A field with the given place, size, number, highlight and theme.
    pub fn new(
        row: u16,
        column: u16,
        width: usize,
        height: usize,
        starting_number: i128,
        is_highlighted: bool,
        theme: Theme,
    ) -> (r: InputNumberField)
        ensures
            r == (InputNumberField {
                row,
                column,
                width,
                height,
                content_number: starting_number,
                is_highlighted,
                theme,
            }),
    {
        InputNumberField {
            row,
            column,
            width,
            height,
            content_number: starting_number,
            is_highlighted,
            theme,
        }
    }

    /// The highlight style of the theme when highlighted, the normal style
    /// otherwise.
    pub fn get_current_style(&self) -> (r: ContentStyle)
        ensures
            r == (if self.is_highlighted {
                highlight_style_of(self.theme)
            } else {
                content_style_of(self.theme)
            }),
    {
        match self.is_highlighted {
            true => self.theme.get_highlight_style(),
            false => self.theme.get_content_style(),
        }
    }

    /// Takes a key: a digit is appended to the number, '-' and '+' set its
    /// sign, and a number too long for the box loses its leading digits;
    /// backspace and delete remove the last digit. The field keeps taking
    /// keys.
    pub fn handle_keypress(&mut self, key: KeyEvent) -> (r: KeyEventResponse)
        requires
            key.code is Char ==> old(self).width * old(self).height <= usize::MAX,
            number_key_fits(
                old(self).content_number as int,
                old(self).width * old(self).height,
                key,
            ),
        ensures
            final(self).content_number == number_after_key(
                old(self).content_number as int,
                old(self).width * old(self).height,
                key,
            ),
            *final(self) == (InputNumberField {
                content_number: final(self).content_number,
                ..*old(self)
            }),
            key.code is Char ==> decimal_text(final(self).content_number as int).len() < old(
                self,
            ).width * old(self).height,
            r is KeepEventConsumer,
    {
        match key.code.as_char() {
            None => {},
            Some(c) => {
                match to_digit(c) {
                    None => {},
                    Some(n) => {
                        self.content_number *= 10;
                        if self.content_number >= 0 {
                            self.content_number += n as i128;
                        } else {
                            self.content_number -= n as i128;
                        }
                    },
                }
                if c == '-' {
                    if self.content_number > 0 {
                        self.content_number = -self.content_number;
                    }
                }
                if c == '+' {
                    if self.content_number < 0 {
                        self.content_number = -self.content_number;
                    }
                }
                let ghost typed = self.content_number as int;
                assert(typed == typed_number(old(self).content_number as int, c));
                let capacity = self.width * self.height;
                let mut content = self.content_number;
                let mut number_text: Vec<char>;
                loop
                    invariant_except_break
                        capacity >= 2,
                        content == typed || (content == fitted_number(typed, capacity as int)
                            && capacity > decimal_text(content as int).len()),
                        capacity <= decimal_text(content as int).len() ==> content == typed,
                    ensures
                        content == fitted_number(typed, capacity as int),
                        capacity > decimal_text(content as int).len(),
                    decreases (if capacity > decimal_text(content as int).len() {
                        0int
                    } else {
                        1int
                    }),
                {
                    number_text = decimal_chars(content);
                    if capacity > number_text.len() {
                        break ;
                    } else {
                        proof {
                            lemma_i128_text_len(content);
                        }
                        if content > 0 {
                            let k = (capacity as u32) - 1;
                            proof {
                                lemma_pow10_mono(1, k as nat);
                                lemma_digits_len_bound(
                                    ((content as int) % pow10(k as nat)) as nat,
                                    k as nat,
                                );
                            }
                            content = remainder(content, pow10_i128(k));
                        }
                        if content < 0 {
                            let k = (capacity as u32) - 2;
                            proof {
                                lemma_pow10_mono(0, k as nat);
                                if k > 0 {
                                    lemma_digits_len_bound(
                                        ((-(content as int)) % pow10(k as nat)) as nat,
                                        k as nat,
                                    );
                                } else {
                                    assert(pow10(0) == 1);
                                }
                            }
                            content = remainder(content, pow10_i128(k));
                        }
                    }
                }
                self.content_number = content;
            },
        }
        if key.code == KeyCode::Backspace || key.code == KeyCode::Delete {
            self.content_number = self.content_number / 10;
        }
        KeyEventResponse::KeepEventConsumer
    }

    /// The lines the field shows: the decimal notation of its number wrapped
    /// at its width, one line per row of its box.
    pub fn display_rows(&self) -> (rows: Vec<Vec<char>>)
        requires
            self.width > 0,
            self.width * self.height <= usize::MAX,
        ensures
            rows@.len() == self.height,
            forall|r: int|
                0 <= r < self.height ==> #[trigger] rows@[r]@ == text_row(
                    decimal_text(self.content_number as int),
                    self.width as int,
                    r,
                ),
    {
        let text = decimal_chars(self.content_number);
        split_rows(&text, self.width, self.height)
    }

    /// Sets whether the field is highlighted.
    pub fn switch_highlight(&mut self, new_state: bool)
        ensures
            *final(self) == (InputNumberField { is_highlighted: new_state, ..*old(self) }),
    {
        self.is_highlighted = new_state;
    }

    /// The centre of the field's box.
    pub fn get_elements_center(&self) -> (r: (u16, u16))
        requires
            center_fits(self.row, self.column, self.width, self.height),
        ensures
            r.0 == center_of(self.row, self.column, self.width, self.height).0,
            r.1 == center_of(self.row, self.column, self.width, self.height).1,
    {
        box_center(self.row, self.column, self.width, self.height)
    }
}

/// A framed box of the window.
pub struct Window {
    pub row: u16,
    pub column: u16,
    pub width: usize,
    pub height: usize,
    pub selectable_elements: Vec<usize>,
    pub is_highlighted: bool,
    pub theme: Theme,
}

impl Window {
    /// A window keeps taking keys and does nothing with them.
    pub fn handle_keypress(&mut self, key: KeyEvent) -> (r: KeyEventResponse)
        ensures
            *final(self) == *old(self),
            r is KeepEventConsumer,
    {
        KeyEventResponse::KeepEventConsumer
    }

    /// The style of the frame: the highlight style of the theme when
    /// highlighted, the normal style otherwise.
    pub fn get_current_style(&self) -> (r: ContentStyle)
        ensures
            r == (if self.is_highlighted {
                highlight_style_of(self.theme)
            } else {
                content_style_of(self.theme)
            }),
    {
        match self.is_highlighted {
            true => self.theme.get_highlight_style(),
            false => self.theme.get_content_style(),
        }
    }

    /// Whether line `row` of the box is its top or bottom edge (drawn in
    /// full) rather than a line that only shows the two sides.
    pub fn is_edge_row(&self, row: usize) -> (r: bool)
        requires
            row < self.height,
        ensures
            r == (row == 0 || row == self.height - 1),
    {
        row == 0 || row == self.height - 1
    }

    /// Sets whether the window is highlighted.
    pub fn switch_highlight(&mut self, new_state: bool)
        ensures
            *final(self) == (Window { is_highlighted: new_state, ..*old(self) }),
    {
        self.is_highlighted = new_state;
    }

    /// The centre of the window's box.
    pub fn get_elements_center(&self) -> (r: (u16, u16))
        requires
            center_fits(self.row, self.column, self.width, self.height),
        ensures
            r.0 == center_of(self.row, self.column, self.width, self.height).0,
            r.1 == center_of(self.row, self.column, self.width, self.height).1,
    {
        box_center(self.row, self.column, self.width, self.height)
    }
}

/// A widget that can be selected in a window.
pub enum Element {
    TextField(InputTextField),
    NumberField(InputNumberField),
    Window(Window),
}

impl Element {
    /// The centre of the widget's box.
    pub open spec fn center(&self) -> (int, int) {
        match self {
            Element::TextField(f) => center_of(f.row, f.column, f.width, f.height),
            Element::NumberField(f) => center_of(f.row, f.column, f.width, f.height),
            Element::Window(w) => center_of(w.row, w.column, w.width, w.height),
        }
    }

    /// The centre of the widget's box lies on the screen.
    pub open spec fn center_on_screen(&self) -> bool {
        self.center().0 <= u16::MAX && self.center().1 <= u16::MAX
    }

    /// Whether the widget is highlighted.
    pub open spec fn highlighted(&self) -> bool {
        match self {
            Element::TextField(f) => f.is_highlighted,
            Element::NumberField(f) => f.is_highlighted,
            Element::Window(w) => w.is_highlighted,
        }
    }

    /// The same widget with its highlight set to `b`.
    pub open spec fn with_highlight(self, b: bool) -> Element {
        match self {
            Element::TextField(f) => Element::TextField(InputTextField { is_highlighted: b, ..f }),
            Element::NumberField(f) => Element::NumberField(
                InputNumberField { is_highlighted: b, ..f },
            ),
            Element::Window(w) => Element::Window(Window { is_highlighted: b, ..w }),
        }
    }

    /// The centre of the widget's box.
    pub fn get_elements_center(&self) -> (r: (u16, u16))
        requires
            self.center_on_screen(),
        ensures
            r.0 == self.center().0,
            r.1 == self.center().1,
    {
        match self {
            Element::TextField(f) => f.get_elements_center(),
            Element::NumberField(f) => f.get_elements_center(),
            Element::Window(w) => w.get_elements_center(),
        }
    }

    /// Whether the widget can take `key` without a number passing its
    /// limits.
    pub open spec fn key_fits(&self, key: KeyEvent) -> bool {
        match self {
            Element::TextField(f) => key.code is Char ==> f.width * f.height <= usize::MAX,
            Element::NumberField(f) => (key.code is Char ==> f.width * f.height <= usize::MAX)
                && number_key_fits(f.content_number as int, f.width * f.height, key),
            Element::Window(w) => true,
        }
    }

    /// The widget `n` is the widget `o` after it took `key`.
    pub open spec fn took_key(o: Element, n: Element, key: KeyEvent) -> bool {
        match o {
            Element::TextField(f) => n matches Element::TextField(g) && g.text@ == text_after_key(
                f.text@,
                f.width * f.height,
                key,
            ) && g.row == f.row && g.column == f.column && g.width == f.width && g.height
                == f.height && g.is_highlighted == f.is_highlighted && g.theme == f.theme,
            Element::NumberField(f) => n == Element::NumberField(
                InputNumberField {
                    content_number: number_after_key(
                        f.content_number as int,
                        f.width * f.height,
                        key,
                    ) as i128,
                    ..f
                },
            ),
            Element::Window(w) => n == o,
        }
    }

    /// Passes a key to the widget; every widget keeps taking keys.
    pub fn handle_keypress(&mut self, key: KeyEvent) -> (r: KeyEventResponse)
        requires
            old(self).key_fits(key),
        ensures
            Element::took_key(*old(self), *final(self), key),
            r is KeepEventConsumer,
    {
        match self {
            Element::TextField(f) => f.handle_keypress(key),
            Element::NumberField(f) => f.handle_keypress(key),
            Element::Window(w) => w.handle_keypress(key),
        }
    }

    /// Sets whether the widget is highlighted.
    pub fn switch_highlight(&mut self, new_state: bool)
        ensures
            *final(self) == old(self).with_highlight(new_state),
    {
        match self {
            Element::TextField(f) => f.switch_highlight(new_state),
            Element::NumberField(f) => f.switch_highlight(new_state),
            Element::Window(w) => w.switch_highlight(new_state),
        }
    }
}

/// Whether a box centred at `to` lies in the direction of `code` (an arrow
/// key) from a box centred at `from`; row 0 is the top of the screen.
pub open spec fn in_direction(from: (int, int), to: (int, int), code: KeyCode) -> bool {
    match code {
        KeyCode::Up => to.0 < from.0,
        KeyCode::Down => to.0 > from.0,
        KeyCode::Left => to.1 < from.1,
        KeyCode::Right => to.1 > from.1,
        _ => false,
    }
}

/// The distance between two centres along rows plus along columns.
pub open spec fn distance(a: (int, int), b: (int, int)) -> int {
    (if a.0 >= b.0 {
        a.0 - b.0
    } else {
        b.0 - a.0
    }) + (if a.1 >= b.1 {
        a.1 - b.1
    } else {
        b.1 - a.1
    })
}

/// Whether the selection can move from widget `from` to widget `i` with
/// the arrow key `code`: `i` is another widget in that direction, nearer
/// than `u16::MAX`.
pub open spec fn is_candidate(list: Seq<Element>, from: int, i: int, code: KeyCode) -> bool {
    &&& 0 <= i < list.len()
    &&& i != from
    &&& in_direction(list[from].center(), list[i].center(), code)
    &&& distance(list[from].center(), list[i].center()) < u16::MAX
}

/// Whether `j` is where the selection moves: the nearest candidate, and the
/// first of the nearest in list order.
pub open spec fn is_nearest(list: Seq<Element>, from: int, j: int, code: KeyCode) -> bool {
    &&& is_candidate(list, from, j, code)
    &&& forall|k: int|
        is_candidate(list, from, k, code) ==> distance(list[from].center(), list[j].center())
            <= #[trigger] distance(list[from].center(), list[k].center())
    &&& forall|k: int|
        0 <= k < j && is_candidate(list, from, k, code) ==> distance(
            list[from].center(),
            list[j].center(),
        ) < #[trigger] distance(list[from].center(), list[k].center())
}

/// Moving the selection from `old` with an arrow key reads the centre of
/// every widget and adds distances only below 65536.
pub open spec fn selection_move_fits(list: Seq<Element>, old: Option<usize>, code: KeyCode) -> bool {
    old matches Some(o) ==> {
        &&& o < list.len()
        &&& forall|i: int| 0 <= i < list.len() ==> #[trigger] list[i].center_on_screen()
        &&& forall|i: int|
            0 <= i < list.len() && i != o && in_direction(list[o as int].center(), list[i].center(), code)
                ==> #[trigger] distance(list[o as int].center(), list[i].center()) <= u16::MAX
    }
}

/// How an arrow key moves the selection: with nothing selected the first
/// widget is selected (if there is one); otherwise the nearest candidate is
/// selected, the old widget losing its highlight and the new one gaining
/// it, or the selection and the widgets stay as they are when there is no
/// candidate.
pub open spec fn selection_moved(
    l: Seq<Element>,
    n: Seq<Element>,
    old: Option<usize>,
    code: KeyCode,
    r: Option<usize>,
) -> bool {
    match old {
        None => if l.len() > 0 {
            r == Some(0usize) && n == l.update(0, l[0].with_highlight(true))
        } else {
            r is None && n == l
        },
        Some(o) => {
            &&& (forall|k: int| !is_candidate(l, o as int, k, code)) ==> r == Some(o) && n == l
            &&& (exists|k: int| is_candidate(l, o as int, k, code)) ==> (r matches Some(j)
                && is_nearest(l, o as int, j as int, code) && n == l.update(
                o as int,
                l[o as int].with_highlight(false),
            ).update(j as int, l[j as int].with_highlight(true)))
        },
    }
}

/// Law: when an arrow key is pressed with widget `o` selected and some
/// other widget `c` lies in the arrow's direction (its centre above, below,
/// left or right of the old centre, row 0 at the top) at a row gap plus
/// column gap under 65535, the selection moves to a widget `j` in that
/// direction whose row gap plus column gap from the old centre is the
/// smallest among all such widgets, the first in list order among equals.
pub proof fn lemma_selection_moves_to_nearest(
    l: Seq<Element>,
    n: Seq<Element>,
    o: usize,
    code: KeyCode,
    r: Option<usize>,
    c: int,
)
    requires
        o < l.len(),
        selection_moved(l, n, Some(o), code, r),
        0 <= c < l.len(),
        c != o,
        (code is Up && l[c].center().0 < l[o as int].center().0) || (code is Down && l[c].center().0
            > l[o as int].center().0) || (code is Left && l[c].center().1 < l[o as int].center().1)
            || (code is Right && l[c].center().1 > l[o as int].center().1),
        (if l[c].center().0 >= l[o as int].center().0 {
            l[c].center().0 - l[o as int].center().0
        } else {
            l[o as int].center().0 - l[c].center().0
        }) + (if l[c].center().1 >= l[o as int].center().1 {
            l[c].center().1 - l[o as int].center().1
        } else {
            l[o as int].center().1 - l[c].center().1
        }) < 65535,
    ensures
        r matches Some(j) && {
            let from = l[o as int].center();
            let to = l[j as int].center();
            let gap = (if to.0 >= from.0 {
                to.0 - from.0
            } else {
                from.0 - to.0
            }) + (if to.1 >= from.1 {
                to.1 - from.1
            } else {
                from.1 - to.1
            });
            &&& 0 <= j < l.len()
            &&& j != o
            &&& (code is Up && to.0 < from.0) || (code is Down && to.0 > from.0) || (code is Left
                && to.1 < from.1) || (code is Right && to.1 > from.1)
            &&& forall|k: int|
                #![trigger l[k]]
                0 <= k < l.len() && k != o && ((code is Up && l[k].center().0 < from.0) || (
                code is Down && l[k].center().0 > from.0) || (code is Left && l[k].center().1
                < from.1) || (code is Right && l[k].center().1 > from.1)) && (if l[k].center().0
                >= from.0 {
                    l[k].center().0 - from.0
                } else {
                    from.0 - l[k].center().0
                }) + (if l[k].center().1 >= from.1 {
                    l[k].center().1 - from.1
                } else {
                    from.1 - l[k].center().1
                }) < 65535 ==> gap <= (if l[k].center().0 >= from.0 {
                    l[k].center().0 - from.0
                } else {
                    from.0 - l[k].center().0
                }) + (if l[k].center().1 >= from.1 {
                    l[k].center().1 - from.1
                } else {
                    from.1 - l[k].center().1
                }) && (k < j ==> gap < (if l[k].center().0 >= from.0 {
                    l[k].center().0 - from.0
                } else {
                    from.0 - l[k].center().0
                }) + (if l[k].center().1 >= from.1 {
                    l[k].center().1 - from.1
                } else {
                    from.1 - l[k].center().1
                }))
        },
{
    assert(is_candidate(l, o as int, c, code));
    let j = r->Some_0 as int;
    let from = l[o as int].center();
    assert forall|k: int|
        #![trigger l[k]]
        0 <= k < l.len() && k != o && ((code is Up && l[k].center().0 < from.0) || (code is Down
            && l[k].center().0 > from.0) || (code is Left && l[k].center().1 < from.1) || (
        code is Right && l[k].center().1 > from.1)) && distance(from, l[k].center())
            < 65535 implies distance(from, l[j].center()) <= distance(from, l[k].center()) && (k
        < j ==> distance(from, l[j].center()) < distance(from, l[k].center())) by {
        assert(is_candidate(l, o as int, k, code));
    }
}

/// Law: when an arrow key is pressed with widget `o` selected and no other
/// widget lies in the arrow's direction at a row gap plus column gap under
/// 65535, the selection and the widgets stay as they are.
pub proof fn lemma_selection_stays(
    l: Seq<Element>,
    n: Seq<Element>,
    o: usize,
    code: KeyCode,
    r: Option<usize>,
)
    requires
        o < l.len(),
        selection_moved(l, n, Some(o), code, r),
        forall|k: int|
            #![trigger l[k]]
            0 <= k < l.len() && k != o ==> !(((code is Up && l[k].center().0 < l[o as int].center().0)
                || (code is Down && l[k].center().0 > l[o as int].center().0) || (code is Left
                && l[k].center().1 < l[o as int].center().1) || (code is Right && l[k].center().1
                > l[o as int].center().1)) && (if l[k].center().0 >= l[o as int].center().0 {
                l[k].center().0 - l[o as int].center().0
            } else {
                l[o as int].center().0 - l[k].center().0
            }) + (if l[k].center().1 >= l[o as int].center().1 {
                l[k].center().1 - l[o as int].center().1
            } else {
                l[o as int].center().1 - l[k].center().1
            }) < 65535),
    ensures
        r == Some(o),
        n == l,
{
    assert forall|k: int| !is_candidate(l, o as int, k, code) by {
        if 0 <= k < l.len() && k != o {
            assert(l[k] == l[k]);
        }
    }
}

/// Moves the selection with an arrow key: with nothing selected the first
/// widget is selected; otherwise the nearest widget in the direction of the
/// key is selected (the first of the nearest in list order), or the
/// selection stays when there is none. The old widget loses its highlight
/// and the new one gains it.
pub fn move_to_new_selectable_element(
    old_selected_element: Option<usize>,
    selectable_element_list: &mut Vec<Element>,
    key_code: KeyCode,
) -> (r: Option<usize>)
    requires
        selection_move_fits(old(selectable_element_list)@, old_selected_element, key_code),
    ensures
        selection_moved(
            old(selectable_element_list)@,
            final(selectable_element_list)@,
            old_selected_element,
            key_code,
            r,
        ),
{
    let old_rc = match old_selected_element {
        Some(el) => el,
        None => {
            if selectable_element_list.len() > 0 {
                selectable_element_list[0].switch_highlight(true);
                return Some(0);
            }
            return None;
        },
    };
    let ghost l = selectable_element_list@;
    let (row_c, col_c) = selectable_element_list[old_rc].get_elements_center();
    let mut nearest_element: Option<usize> = None;
    let mut nearest_element_distance: u16 = u16::MAX;

    for i in 0..selectable_element_list.len()
        invariant
            selectable_element_list@ == l,
            selection_move_fits(l, Some(old_rc), key_code),
            row_c == l[old_rc as int].center().0,
            col_c == l[old_rc as int].center().1,
            match nearest_element {
                None => nearest_element_distance == u16::MAX && forall|k: int|
                    0 <= k < i ==> !is_candidate(l, old_rc as int, k, key_code),
                Some(j) => {
                    &&& j < i
                    &&& is_candidate(l, old_rc as int, j as int, key_code)
                    &&& nearest_element_distance == distance(
                        l[old_rc as int].center(),
                        l[j as int].center(),
                    )
                    &&& forall|k: int|
                        0 <= k < i && is_candidate(l, old_rc as int, k, key_code)
                            ==> nearest_element_distance <= #[trigger] distance(
                            l[old_rc as int].center(),
                            l[k].center(),
                        )
                    &&& forall|k: int|
                        0 <= k < j && is_candidate(l, old_rc as int, k, key_code)
                            ==> nearest_element_distance < #[trigger] distance(
                            l[old_rc as int].center(),
                            l[k].center(),
                        )
                },
            },
    {
        if i != old_rc {
            let (temp_row_c, temp_col_c) = selectable_element_list[i].get_elements_center();
            let is_in_direction = match key_code {
                KeyCode::Up => temp_row_c < row_c,
                KeyCode::Down => temp_row_c > row_c,
                KeyCode::Left => temp_col_c < col_c,
                KeyCode::Right => temp_col_c > col_c,
                _ => false,
            };
            if is_in_direction {
                let row_diff = if row_c >= temp_row_c {
                    row_c - temp_row_c
                } else {
                    temp_row_c - row_c
                };
                let col_diff = if col_c >= temp_col_c {
                    col_c - temp_col_c
                } else {
                    temp_col_c - col_c
                };
                assert(distance(l[old_rc as int].center(), l[i as int].center()) <= u16::MAX);
                let distance = row_diff + col_diff;

                if distance < nearest_element_distance {
                    nearest_element = Some(i);
                    nearest_element_distance = distance;
                }
            }
        }
    }

    if let Some(new_element) = nearest_element {
        selectable_element_list[old_rc].switch_highlight(false);
        selectable_element_list[new_element].switch_highlight(true);
        nearest_element
    } else {
        Some(old_rc)
    }
}

/// The five text fields of the demonstration window ("UP", "LEFT",
/// "CENTER", "RIGTH", "DOWN", arranged as a cross, each five characters by
/// one line, in the default theme), with the first one selected and
/// highlighted.
pub fn populate_window() -> (r: (Option<usize>, Vec<Element>))
    ensures
        r.0 == Some(0usize),
        r.1@.len() == 5,
        r.1@[0].highlighted(),
        forall|i: int| 1 <= i < 5 ==> !(#[trigger] r.1@[i]).highlighted(),
        forall|i: int| 0 <= i < 5 ==> (#[trigger] r.1@[i]) is TextField,
        r.1@[0]->TextField_0.text@ == "UP"@ && r.1@[0]->TextField_0.row == 0
            && r.1@[0]->TextField_0.column == 10,
        r.1@[1]->TextField_0.text@ == "LEFT"@ && r.1@[1]->TextField_0.row == 3
            && r.1@[1]->TextField_0.column == 5,
        r.1@[2]->TextField_0.text@ == "CENTER"@ && r.1@[2]->TextField_0.row == 3
            && r.1@[2]->TextField_0.column == 10,
        r.1@[3]->TextField_0.text@ == "RIGTH"@ && r.1@[3]->TextField_0.row == 3
            && r.1@[3]->TextField_0.column == 16,
        r.1@[4]->TextField_0.text@ == "DOWN"@ && r.1@[4]->TextField_0.row == 5
            && r.1@[4]->TextField_0.column == 10,
        forall|i: int|
            0 <= i < 5 ==> (#[trigger] r.1@[i])->TextField_0.width == 5
                && r.1@[i]->TextField_0.height == 1 && crate::theme::is_default_theme(
                r.1@[i]->TextField_0.theme,
            ),
{
    let mut selectable_element_list: Vec<Element> = Vec::new();
    let window_elements: [(u16, u16, usize, usize, &str, bool); 5] = [
        (0, 10, 5, 1, "UP", false),
        (3, 5, 5, 1, "LEFT", false),
        (3, 10, 5, 1, "CENTER", false),
        (3, 16, 5, 1, "RIGTH", false),
        (5, 10, 5, 1, "DOWN", false),
    ];
    for k in 0..5usize
        invariant
            selectable_element_list@.len() == k,
            forall|i: int|
                0 <= i < k ==> {
                    let e = #[trigger] selectable_element_list@[i];
                    &&& e is TextField
                    &&& e->TextField_0.row == window_elements@[i].0
                    &&& e->TextField_0.column == window_elements@[i].1
                    &&& e->TextField_0.width == window_elements@[i].2
                    &&& e->TextField_0.height == window_elements@[i].3
                    &&& e->TextField_0.text@ == window_elements@[i].4@
                    &&& e->TextField_0.is_highlighted == window_elements@[i].5
                    &&& crate::theme::is_default_theme(e->TextField_0.theme)
                },
    {
        let (row, column, width, height, text, is_highlighted) = window_elements[k];
        let new_element = Element::TextField(
            InputTextField {
                row,
                column,
                width,
                height,
                text: chars_of(text),
                is_highlighted,
                theme: Default::default(),
            },
        );
        selectable_element_list.push(new_element);
    }
    let selected_element = Some(0usize);
    selectable_element_list[0].switch_highlight(true);
    (selected_element, selectable_element_list)
}

/// What the demonstration window holds after a key: whether it closes,
/// which widget takes the keys, and which widget is selected.
pub struct WindowStep {
    pub quit: bool,
    pub event_consumer: Option<usize>,
    pub selected_element: Option<usize>,
}

/// Whether `code` is one of the four arrow keys.
pub open spec fn is_arrow(code: KeyCode) -> bool {
    code == KeyCode::Up || code == KeyCode::Down || code == KeyCode::Left || code == KeyCode::Right
}

/// Handling `key_event` in the demonstration window stays within the limits
/// of the widgets.
pub open spec fn window_key_fits(
    event_consumer: Option<usize>,
    selected_element: Option<usize>,
    list: Seq<Element>,
    key_event: KeyEvent,
) -> bool {
    (key_event.kind == crate::keys::KeyEventKind::Press && !(key_event.code == KeyCode::Char('c')
        && key_event.modifiers & crate::keys::CONTROL != 0)) ==> match event_consumer {
        Some(c) => c < list.len() && list[c as int].key_fits(key_event),
        None => is_arrow(key_event.code) ==> selection_move_fits(
            list,
            selected_element,
            key_event.code,
        ),
    }
}

/// Handles a key in the demonstration window: a key that is not a press
/// does nothing; control-C closes the window; a widget that takes the keys
/// gets the key and says who takes the next keys; with no such widget the
/// arrow keys move the selection.
pub fn handle_window_key(
    event_consumer: Option<usize>,
    selected_element: Option<usize>,
    list: &mut Vec<Element>,
    key_event: KeyEvent,
) -> (r: WindowStep)
    requires
        window_key_fits(event_consumer, selected_element, old(list)@, key_event),
    ensures
        ({
            let l = old(list)@;
            let n = final(list)@;
            if key_event.kind != crate::keys::KeyEventKind::Press {
                !r.quit && r.event_consumer == event_consumer && r.selected_element
                    == selected_element && n == l
            } else if key_event.code == KeyCode::Char('c') && key_event.modifiers
                & crate::keys::CONTROL != 0 {
                r.quit && n == l
            } else {
                &&& !r.quit
                &&& match event_consumer {
                    Some(c) => {
                        &&& n.len() == l.len()
                        &&& Element::took_key(l[c as int], n[c as int], key_event)
                        &&& forall|i: int| 0 <= i < l.len() && i != c ==> n[i] == l[i]
                        &&& r.event_consumer == Some(c)
                        &&& r.selected_element == selected_element
                    },
                    None => {
                        &&& r.event_consumer is None
                        &&& if is_arrow(key_event.code) {
                            selection_moved(
                                l,
                                n,
                                selected_element,
                                key_event.code,
                                r.selected_element,
                            )
                        } else {
                            r.selected_element == selected_element && n == l
                        }
                    },
                }
            }
        }),
{
    if !key_event.is_press() {
        return WindowStep { quit: false, event_consumer, selected_element };
    }
    if key_event.code == KeyCode::Char('c') && key_event.modifiers & crate::keys::CONTROL != 0 {
        return WindowStep { quit: true, event_consumer, selected_element };
    }
    match event_consumer {
        Some(event_consumer_ref) => {
            let response = list[event_consumer_ref].handle_keypress(key_event);
            let next = match response {
                KeyEventResponse::RemoveEventConsumer => None,
                KeyEventResponse::ChangeEventConsumer(new_consumer) => Some(new_consumer),
                KeyEventResponse::KeepEventConsumer => Some(event_consumer_ref),
            };
            WindowStep { quit: false, event_consumer: next, selected_element }
        },
        None => {
            let mut selected = selected_element;
            if key_event.code == KeyCode::Up || key_event.code == KeyCode::Down || key_event.code
                == KeyCode::Left || key_event.code == KeyCode::Right {
                selected = move_to_new_selectable_element(selected_element, list, key_event.code);
            }
            WindowStep { quit: false, event_consumer, selected_element: selected }
        },
    }
}

} // verus!
