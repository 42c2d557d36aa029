//! Colour themes of the user interface, and the styles they give to text.
use vstd::prelude::*;

verus! {

/// A terminal colour: one of the named colours, a true colour, or an entry
/// of the 256-colour table.
#[derive(PartialEq, Eq, Structural, Clone, Copy)]
pub enum Color {
    Reset,
    Black,
    DarkGrey,
    Red,
    DarkRed,
    Green,
    DarkGreen,
    Yellow,
    DarkYellow,
    Blue,
    DarkBlue,
    Magenta,
    DarkMagenta,
    Cyan,
    DarkCyan,
    White,
    Grey,
    Rgb { r: u8, g: u8, b: u8 },
    AnsiValue(u8),
}

/// How text is drawn: colours and attribute bits (no attribute is 0).
#[derive(PartialEq, Eq, Structural, Clone, Copy)]
pub struct ContentStyle {
    pub foreground_color: Option<Color>,
    pub background_color: Option<Color>,
    pub underline_color: Option<Color>,
    pub attributes: u32,
}

/// A text together with the style it is drawn in.
pub struct StyledContent {
    pub style: ContentStyle,
    pub content: String,
}

/// A named set of colours for normal and for highlighted text.
#[derive(Clone)]
pub struct Theme {
    pub name: String,
    pub foreground: Color,
    pub background: Color,
    pub highlighted_foreground: Color,
    pub highlighted_background: Color,
}

/// The style of normal text in `t`: its foreground on its background.
pub open spec fn content_style_of(t: Theme) -> ContentStyle {
    ContentStyle {
        foreground_color: Some(t.foreground),
        background_color: Some(t.background),
        underline_color: None,
        attributes: 0,
    }
}

/// The style of highlighted text in `t`.
pub open spec fn highlight_style_of(t: Theme) -> ContentStyle {
    ContentStyle {
        foreground_color: Some(t.highlighted_foreground),
        background_color: Some(t.highlighted_background),
        underline_color: None,
        attributes: 0,
    }
}

/// A true colour.
pub open spec fn rgb(r: u8, g: u8, b: u8) -> Color {
    Color::Rgb { r, g, b }
}

/// The default theme: white on black, highlighted black on white.
pub open spec fn is_default_theme(t: Theme) -> bool {
    &&& t.name@ == "default"@
    &&& t.foreground == rgb(255, 255, 255)
    &&& t.background == rgb(0, 0, 0)
    &&& t.highlighted_foreground == rgb(0, 0, 0)
    &&& t.highlighted_background == rgb(255, 255, 255)
}

/// The "ema" theme: light brown on dark brown, and the reverse when
/// highlighted.
pub open spec fn is_ema_theme(t: Theme) -> bool {
    &&& t.name@ == "ema"@
    &&& t.foreground == rgb(0x9a, 0x78, 0x4f)
    &&& t.background == rgb(0x43, 0x26, 0x16)
    &&& t.highlighted_foreground == rgb(0x43, 0x26, 0x16)
    &&& t.highlighted_background == rgb(0x9a, 0x78, 0x4f)
}

impl Default for Theme {
    /// The default theme.
    fn default() -> (t: Theme)
        ensures
            is_default_theme(t),
    {
        Theme {
            name: String::from_str("default"),
            foreground: Color::Rgb { r: 255, g: 255, b: 255 },
            background: Color::Rgb { r: 0, g: 0, b: 0 },
            highlighted_foreground: Color::Rgb { r: 0, g: 0, b: 0 },
            highlighted_background: Color::Rgb { r: 255, g: 255, b: 255 },
        }
    }
}

impl Theme {
    /// The text that shows this theme: its name.
    pub fn to_string(&self) -> (r: String)
        ensures
            r@ == self.name@,
    {
        self.name.clone()
    }

    /// The style of normal text.
    pub fn get_content_style(&self) -> (r: ContentStyle)
        ensures
            r == content_style_of(*self),
    {
        ContentStyle {
            foreground_color: Some(self.foreground),
            background_color: Some(self.background),
            underline_color: None,
            attributes: 0,
        }
    }

    /// The style of highlighted text.
    pub fn get_highlight_style(&self) -> (r: ContentStyle)
        ensures
            r == highlight_style_of(*self),
    {
        ContentStyle {
            foreground_color: Some(self.highlighted_foreground),
            background_color: Some(self.highlighted_background),
            underline_color: None,
            attributes: 0,
        }
    }

    /// The "ema" theme.
    pub fn ema() -> (t: Theme)
        ensures
            is_ema_theme(t),
    {
        Theme {
            name: String::from_str("ema"),
            foreground: Color::Rgb { r: 0x9a, g: 0x78, b: 0x4f },
            background: Color::Rgb { r: 0x43, g: 0x26, b: 0x16 },
            highlighted_foreground: Color::Rgb { r: 0x43, g: 0x26, b: 0x16 },
            highlighted_background: Color::Rgb { r: 0x9a, g: 0x78, b: 0x4f },
        }
    }

    /// The "Ema_2" theme: magenta on dark purple, pink on plum when
    /// highlighted.
    pub fn ema_2() -> (t: Theme)
        ensures
            t.name@ == "Ema_2"@,
            t.foreground == rgb(0xff, 0x0, 0xff),
            t.background == rgb(0x75, 0x01, 0x37),
            t.highlighted_foreground == rgb(0xdb, 0x76, 0xab),
            t.highlighted_background == rgb(0x80, 0x0f, 0x50),
    {
        Theme {
            name: String::from_str("Ema_2"),
            foreground: Color::Rgb { r: 0xff, g: 0x0, b: 0xff },
            background: Color::Rgb { r: 0x75, g: 0x01, b: 0x37 },
            highlighted_foreground: Color::Rgb { r: 0xdb, g: 0x76, b: 0xab },
            highlighted_background: Color::Rgb { r: 0x80, g: 0x0f, b: 0x50 },
        }
    }
}

/// The red, green and blue parts of a true colour; themes hold true colours
/// only.
pub fn color_to_rgb(color: &Color) -> (r: (u8, u8, u8))
    requires
        color is Rgb,
    ensures
        *color == rgb(r.0, r.1, r.2),
{
    match color {
        Color::Rgb { r, g, b } => (*r, *g, *b),
        _ => (0, 0, 0),
    }
}

/// A text that is drawn highlighted or not, in the colours of a theme.
pub struct SelectableText {
    pub text: String,
    pub is_highlighted: bool,
    pub current_theme: Theme,
}

impl SelectableText {
    /// A text with its highlight state and theme.
    pub fn new(text: String, is_highlighted: bool, theme: Theme) -> (r: SelectableText)
        ensures
            r.text == text,
            r.is_highlighted == is_highlighted,
            r.current_theme == theme,
    {
        SelectableText { text, is_highlighted, current_theme: theme }
    }

    /// The text in the highlight style of its theme when highlighted, in the
    /// normal style otherwise.
    pub fn get_styled_content(&self) -> (r: StyledContent)
        ensures
            r.style == (if self.is_highlighted {
                highlight_style_of(self.current_theme)
            } else {
                content_style_of(self.current_theme)
            }),
            r.content@ == self.text@,
    {
        match self.is_highlighted {
            true => { StyledContent { style: self.current_theme.get_highlight_style(), content: self.text.clone() } },
            false => { StyledContent { style: self.current_theme.get_content_style(), content: self.text.clone() } },
        }
    }
}

} // verus!
