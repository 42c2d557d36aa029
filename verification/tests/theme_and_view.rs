use mancala::decimal::decimal_chars;
use mancala::game::Game;
use mancala::screen::settings_screen::{ThemeDetailWindow, ThemeListWindow};
use mancala::text::{pad_left, pad_right, zero_pad2};
use mancala::theme::{color_to_rgb, Color, ContentStyle, SelectableText, Theme};
use mancala::view::{board_lines, centered_column, pit_row};

fn s(v: &[char]) -> String {
    v.iter().collect()
}

fn cs(t: &str) -> Vec<char> {
    t.chars().collect()
}

#[test]
fn default_theme_is_white_on_black() {
    let t = Theme::default();
    assert_eq!(t.to_string(), "default");
    assert!(t.foreground == Color::Rgb { r: 255, g: 255, b: 255 });
    assert!(t.background == Color::Rgb { r: 0, g: 0, b: 0 });
    let style = t.get_content_style();
    assert!(style == ContentStyle {
        foreground_color: Some(Color::Rgb { r: 255, g: 255, b: 255 }),
        background_color: Some(Color::Rgb { r: 0, g: 0, b: 0 }),
        underline_color: None,
        attributes: 0,
    });
    let h = t.get_highlight_style();
    assert!(h.foreground_color == Some(Color::Rgb { r: 0, g: 0, b: 0 }));
    assert!(h.background_color == Some(Color::Rgb { r: 255, g: 255, b: 255 }));
}

#[test]
fn ema_themes() {
    let t = Theme::ema();
    assert_eq!(t.to_string(), "ema");
    assert_eq!(color_to_rgb(&t.foreground), (0x9a, 0x78, 0x4f));
    assert_eq!(color_to_rgb(&t.highlighted_foreground), (0x43, 0x26, 0x16));
    let t2 = Theme::ema_2();
    assert_eq!(t2.to_string(), "Ema_2");
    assert_eq!(color_to_rgb(&t2.background), (0x75, 0x01, 0x37));
    assert_eq!(color_to_rgb(&t2.highlighted_background), (0x80, 0x0f, 0x50));
}

#[test]
fn selectable_text_takes_the_style_of_its_state() {
    let t = SelectableText::new("hi".to_string(), true, Theme::ema());
    let c = t.get_styled_content();
    assert_eq!(c.content, "hi");
    assert!(c.style == Theme::ema().get_highlight_style());
    let t = SelectableText::new("hi".to_string(), false, Theme::ema());
    assert!(t.get_styled_content().style == Theme::ema().get_content_style());
}

#[test]
fn numbers_are_written_like_to_string() {
    for x in [0i128, 7, 10, 99, 100, -1, -10, 123456789, i128::MAX, i128::MIN] {
        assert_eq!(s(&decimal_chars(x)), x.to_string());
    }
    assert_eq!(s(&zero_pad2(4)), "04");
    assert_eq!(s(&zero_pad2(13)), "13");
    assert_eq!(s(&zero_pad2(123)), "123");
    assert_eq!(s(&pad_right(&cs("5"), 2)), "5 ");
    assert_eq!(s(&pad_left(&cs("5"), 3)), "  5");
    assert_eq!(s(&pad_left(&cs("1234"), 3)), "1234");
}

#[test]
fn board_lines_of_a_standard_game() {
    let mut g = Game::standard_game();
    g.selected_pit_number = 9;
    let lines: Vec<String> = g.board_lines().iter().map(|l| s(l)).collect();
    assert_eq!(lines.len(), 12);
    assert_eq!(lines[0], "  ╔═════════╗");
    assert_eq!(lines[1], "13║    00   ║13");
    assert_eq!(lines[2], "  ╠════╦════╣");
    assert_eq!(lines[3], "00║ 4  ║ 4  ║12");
    assert_eq!(lines[8], "05║ 4  ║ 4  ║07");
    assert_eq!(lines[9], "  ╠════╩════╣");
    assert_eq!(lines[10], "06║    00   ║06");
    assert_eq!(lines[11], "  ╚═════════╝");
    // Row 3 holds pit 9 on the right, which is selected.
    assert!(lines[6].starts_with("03║ 4  ║ "));
    assert!(lines[6].ends_with(" ║09"));
    assert!(lines[6].contains("4 "));
    assert_ne!(lines[6], "03║ 4  ║ 4  ║09");
}

#[test]
fn board_lines_highlight_the_selected_left_pit() {
    let board = [5u8; 14];
    let lines: Vec<String> = board_lines(&board, 13, 6, 0).iter().map(|l| s(l)).collect();
    assert_eq!(lines[1], "13║    05   ║13");
    assert_eq!(lines[10], "06║    05   ║06");
    assert!(lines[3].starts_with("00║ "));
    assert!(lines[3].ends_with(" ║ 5  ║12"));
    assert_ne!(lines[3], "00║ 5  ║ 5  ║12");
    assert_eq!(lines[4], "01║ 5  ║ 5  ║11");
}

#[test]
fn pit_rows_pad_short_counts() {
    assert_eq!(s(&pit_row(2, &cs("7"), &cs("12"), 10)), "02║ 7  ║ 12 ║10");
}

#[test]
fn theme_list_window_lines() {
    let w = ThemeListWindow::new();
    let lines = w.window_lines();
    assert_eq!(lines.len(), 17);
    assert_eq!(s(&lines[0].text), format!("╔{}╗", "═".repeat(20)));
    assert_eq!(s(&lines[1].text), format!("║{: <20}║", "default"));
    assert!(lines[1].highlighted);
    assert_eq!(s(&lines[2].text), format!("║{: <20}║", "ema"));
    assert!(!lines[2].highlighted);
    assert_eq!(s(&lines[3].text), format!("║{: <20}║", " "));
    assert_eq!(s(&lines[16].text), format!("╚{}╝", "═".repeat(20)));
}

#[test]
fn theme_detail_colour_lines() {
    let d = ThemeDetailWindow::new();
    let lines = d.colour_lines(&Theme::ema());
    assert_eq!(lines.len(), 4);
    assert_eq!(s(&lines[0].0), " foreground:   r:154, g:120, b: 79");
    assert!(lines[0].1 == Color::Rgb { r: 0x9a, g: 0x78, b: 0x4f });
    assert_eq!(s(&lines[1].0), " background:   r: 67, g: 38, b: 22");
    assert_eq!(s(&lines[2].0), " foreground_h: r: 67, g: 38, b: 22");
    assert_eq!(s(&lines[3].0), " background_h: r:154, g:120, b: 79");
    assert_eq!(s(&d.border_top()), format!("╔{}╗", "═".repeat(38)));
    assert_eq!(s(&d.border_bottom()), format!("╚{}╝", "═".repeat(38)));
}

#[test]
fn centred_text_starts_half_its_length_before_the_middle() {
    assert_eq!(centered_column(80, 21), 30);
    assert_eq!(centered_column(80, 80), 0);
    assert_eq!(centered_column(81, 1), 40);
}

#[test]
fn menu_lines_highlight_the_selected_item() {
    let mut m = mancala::screen::main_menu::MainMenu::new();
    m.selected_index = 1;
    let lines = m.menu_lines();
    let texts: Vec<String> = lines.iter().map(|l| s(&l.text)).collect();
    assert_eq!(texts, vec!["Start Game", "Settings", "Exit"]);
    let marks: Vec<bool> = lines.iter().map(|l| l.highlighted).collect();
    assert_eq!(marks, vec![false, true, false]);
}

#[test]
fn detail_window_shows_the_selected_theme_and_samples() {
    let mut settings = mancala::screen::settings_screen::Settings::new();
    settings.theme_list_window.theme_list_index = 1;
    let d = ThemeDetailWindow::new();
    assert_eq!(d.shown_theme(&settings).name, "ema");
    let samples = d.sample_lines(&Theme::ema());
    assert_eq!(samples[0].content, "Some text");
    assert!(samples[0].style == Theme::ema().get_content_style());
    assert_eq!(samples[1].content, "Some highlighted text");
    assert!(samples[1].style == Theme::ema().get_highlight_style());
}
