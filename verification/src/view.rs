//! What the screens draw: the lines of the board and of the theme windows,
//! and where centred text starts.
use crossterm::style::Stylize;
use vstd::prelude::*;
use crate::decimal::digits_of;
use crate::game::Game;
use crate::screen::main_menu::MainMenu;
use crate::screen::settings_screen::{Settings, ThemeDetailWindow, ThemeListWindow};
use crate::text::{
    chars_of, digits, pad_left, pad_right, padded_left, padded_right, push_chars, push_repeated,
    push_str, repeated, zero_pad2, zero_padded2,
};
use crate::theme::{
    color_to_rgb, content_style_of, highlight_style_of, rgb, Color, StyledContent, Theme,
};

verus! {

/// Turns `text` into black text on a white background with
/// `Stylize::black`, `Stylize::on_white` and the `Display` of crossterm's
/// `StyledContent`. Claimed: the result is empty, or it is `text` with
/// something before and after it. Which of the two, and what surrounds the
/// text (the colour sequences of the terminal), is not stated: it depends on
/// the environment (crossterm leaves the colours out when `NO_COLOR` is set,
/// and on a Windows console without ANSI support nothing is written).
#[verifier::external_body]
fn black_on_white(text: &Vec<char>) -> (r: Vec<char>)
    ensures
        r@.len() == 0 || exists|p: Seq<char>, q: Seq<char>| r@ == p + text@ + q,
{
    let s: String = text.iter().collect();
    s.black().on_white().to_string().chars().collect()
}

/// The line of a store: its number, its stones, its number again.
pub open spec fn store_line(store: int, count: int) -> Seq<char> {
    zero_padded2(store as nat) + "║    "@ + zero_padded2(count as nat) + "   ║"@
        + zero_padded2(store as nat)
}

/// The line of a row of pits: the left pit's number, its text, the right
/// pit's text and number.
pub open spec fn pit_row_line(
    left: int,
    left_text: Seq<char>,
    right_text: Seq<char>,
    right: int,
) -> Seq<char> {
    zero_padded2(left as nat) + "║ "@ + padded_right(left_text, 2) + " ║ "@ + padded_right(
        right_text,
        2,
    ) + " ║"@ + zero_padded2(right as nat)
}

/// Whether `line` shows `text` highlighted: `text` with something before
/// and after it, or nothing where the terminal cannot show styles.
pub open spec fn shows_highlighted(line: Seq<char>, text: Seq<char>) -> bool {
    line.len() == 0 || exists|p: Seq<char>, q: Seq<char>| line == p + text + q
}

/// Whether `line` is the line of row `i` of the board: pit `i` on the left
/// and pit `12 - i` on the right, the selected one highlighted (its count
/// padded to two characters).
pub open spec fn is_board_row(line: Seq<char>, board: Seq<u8>, i: int, selected: int) -> bool {
    let left_digits = digits_of(board[i] as nat);
    let right_digits = digits_of(board[12 - i] as nat);
    if i == selected {
        exists|h: Seq<char>|
            line == pit_row_line(i, h, right_digits, 12 - i) && shows_highlighted(
                h,
                padded_right(left_digits, 2),
            )
    } else if 12 - i == selected {
        exists|h: Seq<char>|
            line == pit_row_line(i, left_digits, h, 12 - i) && shows_highlighted(
                h,
                padded_right(right_digits, 2),
            )
    } else {
        line == pit_row_line(i, left_digits, right_digits, 12 - i)
    }
}

/// Law: row `i` of the board shows, next to the number of pit `i`, the
/// decimal stone count of pit `i`, and next to the number of pit `12 - i`,
/// the count of pit `12 - i`, each padded to two characters. The count of
/// the selected pit is shown highlighted: it stands inside the cell's text,
/// unless the terminal shows no styles and the cell is left blank.
pub proof fn lemma_board_row_counts(line: Seq<char>, board: Seq<u8>, i: int, selected: int)
    requires
        board.len() == 14,
        0 <= i < 6,
        is_board_row(line, board, i, selected),
    ensures
        i != selected && 12 - i != selected ==> line == zero_padded2(i as nat) + "║ "@
            + padded_right(digits_of(board[i] as nat), 2) + " ║ "@ + padded_right(
            digits_of(board[12 - i] as nat),
            2,
        ) + " ║"@ + zero_padded2((12 - i) as nat),
        i == selected ==> exists|h: Seq<char>|
            line == zero_padded2(i as nat) + "║ "@ + padded_right(h, 2) + " ║ "@ + padded_right(
                digits_of(board[12 - i] as nat),
                2,
            ) + " ║"@ + zero_padded2((12 - i) as nat) && (h.len() == 0 || exists|
                p: Seq<char>,
                q: Seq<char>,
            | h == p + padded_right(digits_of(board[i] as nat), 2) + q),
        12 - i == selected ==> exists|h: Seq<char>|
            line == zero_padded2(i as nat) + "║ "@ + padded_right(
                digits_of(board[i] as nat),
                2,
            ) + " ║ "@ + padded_right(h, 2) + " ║"@ + zero_padded2((12 - i) as nat) && (h.len()
                == 0 || exists|p: Seq<char>, q: Seq<char>|
                #![trigger p + padded_right(digits_of(board[12 - i] as nat), 2) + q]
                h == p + padded_right(digits_of(board[12 - i] as nat), 2) + q),
{
}

/// The line of a row of pits, from the texts of its two pits.
pub fn pit_row(left: usize, left_text: &Vec<char>, right_text: &Vec<char>, right: usize) -> (r:
    Vec<char>)
    ensures
        r@ == pit_row_line(left as int, left_text@, right_text@, right as int),
{
    let mut line = zero_pad2(left);
    push_str(&mut line, "║ ");
    push_chars(&mut line, &pad_right(left_text, 2));
    push_str(&mut line, " ║ ");
    push_chars(&mut line, &pad_right(right_text, 2));
    push_str(&mut line, " ║");
    push_chars(&mut line, &zero_pad2(right));
    assert(line@ =~= pit_row_line(left as int, left_text@, right_text@, right as int));
    line
}

/// The line of a store.
pub fn store_row(store: usize, count: u8) -> (r: Vec<char>)
    ensures
        r@ == store_line(store as int, count as int),
{
    let mut line = zero_pad2(store);
    push_str(&mut line, "║    ");
    push_chars(&mut line, &zero_pad2(count as usize));
    push_str(&mut line, "   ║");
    push_chars(&mut line, &zero_pad2(store));
    assert(line@ =~= store_line(store as int, count as int));
    line
}

/// The twelve lines of the board: a frame, the store `top_store` at the
/// top, six rows of pits (pit `i` on the left, pit `12 - i` on the right,
/// the selected pit highlighted), and the store `bottom_store` at the
/// bottom.
pub fn board_lines(board: &[u8; 14], top_store: usize, bottom_store: usize, selected: usize) -> (r:
    Vec<Vec<char>>)
    requires
        top_store < 14,
        bottom_store < 14,
    ensures
        r@.len() == 12,
        r@[0]@ == "  ╔═════════╗"@,
        r@[1]@ == store_line(top_store as int, board@[top_store as int] as int),
        r@[2]@ == "  ╠════╦════╣"@,
        forall|i: int| 0 <= i < 6 ==> is_board_row(#[trigger] r@[3 + i]@, board@, i, selected as int),
        r@[9]@ == "  ╠════╩════╣"@,
        r@[10]@ == store_line(bottom_store as int, board@[bottom_store as int] as int),
        r@[11]@ == "  ╚═════════╝"@,
{
    let mut lines: Vec<Vec<char>> = Vec::new();
    lines.push(chars_of("  ╔═════════╗"));
    lines.push(store_row(top_store, board[top_store]));
    lines.push(chars_of("  ╠════╦════╣"));

    for i in 0..6usize
        invariant
            top_store < 14,
            lines@.len() == 3 + i,
            lines@[0]@ == "  ╔═════════╗"@,
            lines@[1]@ == store_line(top_store as int, board@[top_store as int] as int),
            lines@[2]@ == "  ╠════╦════╣"@,
            forall|k: int| 0 <= k < i ==> is_board_row(#[trigger] lines@[3 + k]@, board@, k, selected as int),
    {
        let left = i;
        let right = 12 - i;
        let left_texted_colored: Vec<char>;
        let right_texted_colored: Vec<char>;
        if i == selected {
            left_texted_colored = black_on_white(&pad_right(&digits(board[left] as u64), 2));
            right_texted_colored = digits(board[right] as u64);
        } else if 12 - i == selected {
            right_texted_colored = black_on_white(&pad_right(&digits(board[right] as u64), 2));
            left_texted_colored = digits(board[left] as u64);
        } else {
            right_texted_colored = digits(board[right] as u64);
            left_texted_colored = digits(board[left] as u64);
        }
        let line = pit_row(left, &left_texted_colored, &right_texted_colored, right);
        proof {
            if i == selected {
                assert(line@ == pit_row_line(
                    i as int,
                    left_texted_colored@,
                    digits_of(board@[12 - i] as nat),
                    12 - i,
                ) && shows_highlighted(
                    left_texted_colored@,
                    padded_right(digits_of(board@[i as int] as nat), 2),
                ));
            } else if 12 - i == selected {
                assert(line@ == pit_row_line(
                    i as int,
                    digits_of(board@[i as int] as nat),
                    right_texted_colored@,
                    12 - i,
                ) && shows_highlighted(
                    right_texted_colored@,
                    padded_right(digits_of(board@[12 - i] as nat), 2),
                ));
            }
        }
        lines.push(line);
        assert(is_board_row(lines@[3 + i as int]@, board@, i as int, selected as int));
    }
    lines.push(chars_of("  ╠════╩════╣"));
    lines.push(store_row(bottom_store, board[bottom_store]));
    lines.push(chars_of("  ╚═════════╝"));
    lines
}

impl Game {
    /// The lines of this game's board: player two's store at the top,
    /// player one's at the bottom, the selected pit highlighted.
    pub fn board_lines(&self) -> (r: Vec<Vec<char>>)
        ensures
            r@.len() == 12,
            r@[0]@ == "  ╔═════════╗"@,
            r@[1]@ == store_line(self.score_pit(2), self.board@[self.score_pit(2)] as int),
            r@[2]@ == "  ╠════╦════╣"@,
            forall|i: int|
                0 <= i < 6 ==> is_board_row(
                    #[trigger] r@[3 + i]@,
                    self.board@,
                    i,
                    self.selected_pit_number as int,
                ),
            r@[9]@ == "  ╠════╩════╣"@,
            r@[10]@ == store_line(self.score_pit(1), self.board@[self.score_pit(1)] as int),
            r@[11]@ == "  ╚═════════╝"@,
            ({
                let top = if self.player1.id == 2 {
                    6int
                } else {
                    13int
                };
                r@[1]@ == zero_padded2(top as nat) + "║    "@ + zero_padded2(
                    self.board@[top] as nat,
                ) + "   ║"@ + zero_padded2(top as nat)
            }),
            ({
                let bottom = if self.player1.id == 1 {
                    6int
                } else {
                    13int
                };
                r@[10]@ == zero_padded2(bottom as nat) + "║    "@ + zero_padded2(
                    self.board@[bottom] as nat,
                ) + "   ║"@ + zero_padded2(bottom as nat)
            }),
    {
        board_lines(
            &self.board,
            self.get_player_score_pit_position(2) as usize,
            self.get_player_score_pit_position(1) as usize,
            self.selected_pit_number as usize,
        )
    }
}

/// A frame line of `width` characters inside: `left`, `width` copies of
/// `fill`, `right`.
pub open spec fn frame_line(left: char, fill: char, right: char, width: nat) -> Seq<char> {
    seq![left] + repeated(fill, width) + seq![right]
}

/// A frame line.
pub fn frame_row(left: char, fill: char, right: char, width: usize) -> (r: Vec<char>)
    ensures
        r@ == frame_line(left, fill, right, width as nat),
{
    let mut line: Vec<char> = Vec::new();
    line.push(left);
    push_repeated(&mut line, fill, width);
    line.push(right);
    assert(line@ =~= frame_line(left, fill, right, width as nat));
    line
}

/// A line to draw, and whether it is drawn highlighted.
pub struct ListLine {
    pub text: Vec<char>,
    pub highlighted: bool,
}

/// The text of row `n` of the theme list: the name of the `n`-th theme, or
/// a space past the end of the list, padded to `width`, between two frame
/// bars.
pub open spec fn theme_list_row(themes: Seq<Theme>, n: int, width: int) -> Seq<char> {
    seq!['║'] + padded_right(
        if n < themes.len() {
            themes[n].name@
        } else {
            " "@
        },
        width,
    ) + seq!['║']
}

impl ThemeListWindow {
    /// The lines of the theme list: the top of the frame, one row per line
    /// of the window (the selected theme highlighted), and the bottom of the
    /// frame.
    pub fn window_lines(&self) -> (r: Vec<ListLine>)
        requires
            self.window_width >= 2,
        ensures
            r@.len() == self.window_height + 2,
            r@[0].text@ == frame_line('╔', '═', '╗', (self.window_width - 2) as nat),
            !r@[0].highlighted,
            forall|n: int|
                0 <= n < self.window_height ==> (#[trigger] r@[n + 1]).text@ == theme_list_row(
                    self.theme_list@,
                    n,
                    self.window_width - 2,
                ) && r@[n + 1].highlighted == (n == self.theme_list_index),
            r@[self.window_height + 1].text@ == frame_line(
                '╚',
                '═',
                '╝',
                (self.window_width - 2) as nat,
            ),
            !r@[self.window_height + 1].highlighted,
    {
        let content_width = (self.window_width - 2) as usize;
        let mut lines: Vec<ListLine> = Vec::new();
        lines.push(ListLine { text: frame_row('╔', '═', '╗', content_width), highlighted: false });
        for n in 0..self.window_height
            invariant
                content_width == self.window_width - 2,
                lines@.len() == n + 1,
                lines@[0].text@ == frame_line('╔', '═', '╗', content_width as nat),
                !lines@[0].highlighted,
                forall|k: int|
                    0 <= k < n ==> (#[trigger] lines@[k + 1]).text@ == theme_list_row(
                        self.theme_list@,
                        k,
                        content_width as int,
                    ) && lines@[k + 1].highlighted == (k == self.theme_list_index),
        {
            let name: Vec<char> = if (n as usize) < self.theme_list.len() {
                chars_of(self.theme_list[n as usize].name.as_str())
            } else {
                chars_of(" ")
            };
            let mut text: Vec<char> = Vec::new();
            text.push('║');
            push_chars(&mut text, &pad_right(&name, content_width));
            text.push('║');
            assert(text@ =~= theme_list_row(self.theme_list@, n as int, content_width as int));
            lines.push(ListLine { text, highlighted: n == self.theme_list_index });
        }
        lines.push(ListLine { text: frame_row('╚', '═', '╝', content_width), highlighted: false });
        lines
    }
}

impl MainMenu {
    /// The items of the menu, the selected one highlighted.
    pub fn menu_lines(&self) -> (r: Vec<ListLine>)
        ensures
            r@.len() == self.menu_items@.len(),
            forall|i: int|
                0 <= i < self.menu_items@.len() ==> (#[trigger] r@[i]).text@ == self.menu_items@[i]@
                    && r@[i].highlighted == (i == self.selected_index),
    {
        let mut lines: Vec<ListLine> = Vec::new();
        for index in 0..self.menu_items.len()
            invariant
                lines@.len() == index,
                forall|i: int|
                    0 <= i < index ==> (#[trigger] lines@[i]).text@ == self.menu_items@[i]@
                        && lines@[i].highlighted == (i == self.selected_index),
        {
            lines.push(
                ListLine {
                    text: chars_of(self.menu_items[index]),
                    highlighted: index == self.selected_index,
                },
            );
        }
        lines
    }
}

/// The line that shows a colour: its label, then its red, green and blue
/// parts right-aligned in three characters.
pub open spec fn colour_line(label: Seq<char>, r: u8, g: u8, b: u8) -> Seq<char> {
    label + "r:"@ + padded_left(digits_of(r as nat), 3) + ", g:"@ + padded_left(
        digits_of(g as nat),
        3,
    ) + ", b:"@ + padded_left(digits_of(b as nat), 3)
}

/// The line that shows the true colour `c` under `label`.
fn colour_row(label: &str, c: &Color) -> (r: (Vec<char>, Color))
    requires
        *c is Rgb,
    ensures
        r.1 == *c,
        exists|red: u8, green: u8, blue: u8|
            *c == rgb(red, green, blue) && r.0@ == colour_line(label@, red, green, blue),
{
    let (r, g, b) = color_to_rgb(c);
    let mut line = chars_of(label);
    push_str(&mut line, "r:");
    push_chars(&mut line, &pad_left(&digits(r as u64), 3));
    push_str(&mut line, ", g:");
    push_chars(&mut line, &pad_left(&digits(g as u64), 3));
    push_str(&mut line, ", b:");
    push_chars(&mut line, &pad_left(&digits(b as u64), 3));
    assert(line@ =~= colour_line(label@, r, g, b));
    (line, *c)
}

/// Whether all four colours of `t` are true colours.
pub open spec fn is_true_colour_theme(t: Theme) -> bool {
    &&& t.foreground is Rgb
    &&& t.background is Rgb
    &&& t.highlighted_foreground is Rgb
    &&& t.highlighted_background is Rgb
}

/// Whether `line` shows the colour `c`, which is the colour of the pair,
/// under `label`.
pub open spec fn shows_colour(line: (Vec<char>, Color), label: Seq<char>, c: Color) -> bool {
    &&& line.1 == c
    &&& exists|red: u8, green: u8, blue: u8|
        c == rgb(red, green, blue) && line.0@ == colour_line(label, red, green, blue)
}

impl ThemeDetailWindow {
    /// The four colour lines of `theme`: foreground, background, highlighted
    /// foreground and highlighted background, each with its colour.
    pub fn colour_lines(&self, theme: &Theme) -> (r: Vec<(Vec<char>, Color)>)
        requires
            is_true_colour_theme(*theme),
        ensures
            r@.len() == 4,
            shows_colour(r@[0], " foreground:   "@, theme.foreground),
            shows_colour(r@[1], " background:   "@, theme.background),
            shows_colour(r@[2], " foreground_h: "@, theme.highlighted_foreground),
            shows_colour(r@[3], " background_h: "@, theme.highlighted_background),
    {
        let mut lines: Vec<(Vec<char>, Color)> = Vec::new();
        lines.push(colour_row(" foreground:   ", &theme.foreground));
        lines.push(colour_row(" background:   ", &theme.background));
        lines.push(colour_row(" foreground_h: ", &theme.highlighted_foreground));
        lines.push(colour_row(" background_h: ", &theme.highlighted_background));
        lines
    }

    /// The theme the detail window shows: the one selected in the list of
    /// the settings.
    pub fn shown_theme<'a>(&self, state: &'a Settings) -> (r: &'a Theme)
        requires
            state.theme_list_window.theme_list_index < state.theme_list_window.theme_list@.len(),
        ensures
            *r == state.theme_list_window.theme_list@[state.theme_list_window.theme_list_index as int],
    {
        state.theme_list_window.get_selected_theme()
    }

    /// The two sample lines of `theme`: "Some text" in its normal style and
    /// "Some highlighted text" in its highlight style.
    pub fn sample_lines(&self, theme: &Theme) -> (r: Vec<StyledContent>)
        ensures
            r@.len() == 2,
            r@[0].content@ == "Some text"@,
            r@[0].style == content_style_of(*theme),
            r@[1].content@ == "Some highlighted text"@,
            r@[1].style == highlight_style_of(*theme),
    {
        let mut lines: Vec<StyledContent> = Vec::new();
        lines.push(
            StyledContent { style: theme.get_content_style(), content: String::from_str("Some text") },
        );
        lines.push(
            StyledContent {
                style: theme.get_highlight_style(),
                content: String::from_str("Some highlighted text"),
            },
        );
        lines
    }

    /// The top of the frame of the detail window.
    pub fn border_top(&self) -> (r: Vec<char>)
        requires
            self.window_width >= 2,
        ensures
            r@ == frame_line('╔', '═', '╗', (self.window_width - 2) as nat),
    {
        frame_row('╔', '═', '╗', (self.window_width - 2) as usize)
    }

    /// The bottom of the frame of the detail window.
    pub fn border_bottom(&self) -> (r: Vec<char>)
        requires
            self.window_width >= 2,
        ensures
            r@ == frame_line('╚', '═', '╝', (self.window_width - 2) as nat),
    {
        frame_row('╚', '═', '╝', (self.window_width - 2) as usize)
    }
}

/// The column where a text of `text_len` characters starts when it is
/// centred on a screen `width` columns wide.
pub fn centered_column(width: u16, text_len: usize) -> (r: u16)
    requires
        text_len / 2 <= width / 2,
    ensures
        r == width / 2 - text_len / 2,
{
    (width / 2) - (text_len / 2) as u16
}

} // verus!
