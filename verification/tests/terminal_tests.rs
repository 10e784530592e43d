use termbuf::color::{Color, ColorPair};
use termbuf::render::Cell;
use termbuf::console::init_terminal;
use termbuf::terminal::Terminal;
use termbuf::SystemTerminal;
use termbuf::window::{draw, Window};

fn white_on_black() -> ColorPair {
    ColorPair { fg: Some(Color::DarkWhite), bg: Some(Color::DarkBlack) }
}

fn uniform_line(s: &str, color: ColorPair) -> Vec<(char, ColorPair)> {
    s.chars().map(|c| (c, color)).collect()
}

fn blank() -> Cell {
    Cell { ch: ' ', fg: Color::DarkWhite, bg: Color::DarkBlack }
}

fn cell(ch: char) -> Cell {
    Cell { ch, fg: Color::DarkWhite, bg: Color::DarkBlack }
}

fn row_string(t: &SystemTerminal, y: u16) -> String {
    let (w, _) = t.size();
    (0..w).map(|x| t.cell_at(x, y).ch).collect()
}

fn screen_row_string(t: &SystemTerminal, y: u16) -> String {
    let (w, _) = t.size();
    (0..w).map(|x| t.screen_at(x, y).ch).collect()
}

#[test]
fn init_gives_blank_grid() {
    let t = init_terminal(4, 3).unwrap();
    assert_eq!(t.size(), (4, 3));
    assert_eq!(t.get_cursor_pos(), (0, 0));
    assert_eq!(t.get_default_color(), white_on_black());
    for y in 0..3 {
        for x in 0..4 {
            assert_eq!(t.cell_at(x, y), blank());
            assert_eq!(t.screen_at(x, y), blank());
        }
    }
}

#[test]
fn init_rejects_degenerate_sizes() {
    assert!(init_terminal(0, 5).is_err());
    assert!(init_terminal(5, 0).is_err());
    assert!(init_terminal(0x8000, 5).is_err());
    assert!(init_terminal(1, 1).is_ok());
}

#[test]
fn print_at_clips_at_right_edge() {
    let mut t = init_terminal(10, 2).unwrap();
    let line = uniform_line("abcde", white_on_black());
    t.print_at(7, 0, &line);
    assert_eq!(row_string(&t, 0), "       abc");
    assert_eq!(row_string(&t, 1), "          ");
}

#[test]
fn print_at_short_stream_at_right_edge() {
    let mut t = init_terminal(10, 2).unwrap();
    let line = uniform_line("ab", white_on_black());
    t.print_at(7, 0, &line);
    assert_eq!(row_string(&t, 0), "       ab ");
}

#[test]
fn print_at_negative_column_skips_leading_elements() {
    let mut t = init_terminal(10, 2).unwrap();
    let line = uniform_line("abcdefg", white_on_black());
    t.print_at(-5, 0, &line);
    assert_eq!(row_string(&t, 0), "fg        ");
}

#[test]
fn print_at_stops_at_newline() {
    let mut t = init_terminal(10, 2).unwrap();
    let line = uniform_line("ab\ncdefgh", white_on_black());
    t.print_at(0, 0, &line);
    assert_eq!(row_string(&t, 0), "ab        ");
    assert_eq!(row_string(&t, 1), "          ");
}

#[test]
fn print_at_row_out_of_range_is_noop() {
    let mut t = init_terminal(10, 2).unwrap();
    let line = uniform_line("abc", white_on_black());
    t.print_at(0, -1, &line);
    t.print_at(0, 2, &line);
    t.print_at(0, 100, &line);
    for y in 0..2 {
        assert_eq!(row_string(&t, y), "          ");
    }
    assert_eq!(t.get_cursor_pos(), (0, 0));
}

#[test]
fn print_at_resolves_colors_against_default() {
    let mut t = init_terminal(4, 1).unwrap();
    let line = vec![
        ('x', ColorPair { fg: Some(Color::DarkRed), bg: None }),
        ('y', ColorPair { fg: None, bg: None }),
    ];
    t.print_at(0, 0, &line);
    assert_eq!(t.cell_at(0, 0), Cell { ch: 'x', fg: Color::DarkRed, bg: Color::DarkBlack });
    assert_eq!(t.cell_at(1, 0), Cell { ch: 'y', fg: Color::DarkWhite, bg: Color::DarkBlack });
}

#[test]
fn print_at_is_invisible_until_present() {
    let mut t = init_terminal(4, 1).unwrap();
    let line = uniform_line("hi", white_on_black());
    t.print_at(0, 0, &line);
    assert_eq!(row_string(&t, 0), "hi  ");
    assert_eq!(screen_row_string(&t, 0), "    ");
    t.present();
    assert_eq!(screen_row_string(&t, 0), "hi  ");
}

#[test]
fn write_multi_line_scenario() {
    let mut t = init_terminal(4, 2).unwrap();
    t.write("ab\ncd");
    assert_eq!(row_string(&t, 0), "ab  ");
    assert_eq!(row_string(&t, 1), "cd  ");
    assert_eq!(t.get_cursor_pos(), (2, 1));
    // write presents: the device shows the result already
    assert_eq!(screen_row_string(&t, 0), "ab  ");
    assert_eq!(screen_row_string(&t, 1), "cd  ");
}

#[test]
fn write_colored_truncates_at_color_stream() {
    let mut t = init_terminal(10, 2).unwrap();
    let c1 = ColorPair { fg: Some(Color::DarkRed), bg: None };
    let c2 = ColorPair { fg: Some(Color::DarkGreen), bg: None };
    t.write_colored("hello", &vec![c1, c2]);
    assert_eq!(row_string(&t, 0), "he        ");
    assert_eq!(t.cell_at(0, 0), Cell { ch: 'h', fg: Color::DarkRed, bg: Color::DarkBlack });
    assert_eq!(t.cell_at(1, 0), Cell { ch: 'e', fg: Color::DarkGreen, bg: Color::DarkBlack });
    assert_eq!(t.get_cursor_pos(), (2, 0));
}

#[test]
fn write_empty_string_still_presents_and_keeps_cursor() {
    let mut t = init_terminal(4, 2).unwrap();
    let line = uniform_line("zz", white_on_black());
    t.print_at(0, 0, &line);
    t.set_cursor_pos(1, 1).unwrap();
    t.write("");
    assert_eq!(t.get_cursor_pos(), (1, 1));
    // the pending buffer was flushed by the write's present
    assert_eq!(screen_row_string(&t, 0), "zz  ");
}

#[test]
fn write_wraps_long_line() {
    let mut t = init_terminal(4, 3).unwrap();
    t.write("abcdef");
    assert_eq!(row_string(&t, 0), "abcd");
    assert_eq!(row_string(&t, 1), "ef  ");
    assert_eq!(t.get_cursor_pos(), (2, 1));
}

#[test]
fn write_truncates_past_last_row() {
    let mut t = init_terminal(4, 2).unwrap();
    t.write("ab\ncd\nef");
    assert_eq!(row_string(&t, 0), "ab  ");
    assert_eq!(row_string(&t, 1), "cd  ");
    assert_eq!(t.get_cursor_pos(), (2, 1));
}

#[test]
fn write_starts_at_cursor_position() {
    let mut t = init_terminal(6, 2).unwrap();
    t.set_cursor_pos(2, 0).unwrap();
    t.write("ab");
    assert_eq!(row_string(&t, 0), "  ab  ");
    assert_eq!(t.get_cursor_pos(), (4, 0));
}

#[test]
fn write_filling_last_cell_does_not_wrap_cursor() {
    let mut t = init_terminal(4, 1).unwrap();
    t.write("wxyz");
    assert_eq!(row_string(&t, 0), "wxyz");
    // the follow-on position lies outside the grid, so the cursor stays put
    assert_eq!(t.get_cursor_pos(), (0, 0));
}

#[test]
fn write_with_color_uses_one_color_for_all() {
    let mut t = init_terminal(5, 1).unwrap();
    let c = ColorPair { fg: Some(Color::LightBlue), bg: Some(Color::DarkRed) };
    t.write_with_color("ok", c);
    assert_eq!(t.cell_at(0, 0), Cell { ch: 'o', fg: Color::LightBlue, bg: Color::DarkRed });
    assert_eq!(t.cell_at(1, 0), Cell { ch: 'k', fg: Color::LightBlue, bg: Color::DarkRed });
}

#[test]
fn set_default_color_composes_over_old() {
    let mut t = init_terminal(4, 1).unwrap();
    t.set_default_color(ColorPair { fg: Some(Color::DarkRed), bg: None });
    assert_eq!(
        t.get_default_color(),
        ColorPair { fg: Some(Color::DarkRed), bg: Some(Color::DarkBlack) }
    );
    t.set_default_color(ColorPair { fg: None, bg: Some(Color::DarkBlue) });
    assert_eq!(
        t.get_default_color(),
        ColorPair { fg: Some(Color::DarkRed), bg: Some(Color::DarkBlue) }
    );
}

#[test]
fn default_color_is_rederived_at_every_write() {
    let mut t = init_terminal(4, 1).unwrap();
    t.set_default_color(ColorPair { fg: Some(Color::DarkGreen), bg: None });
    t.write("a");
    assert_eq!(t.cell_at(0, 0), Cell { ch: 'a', fg: Color::DarkGreen, bg: Color::DarkBlack });
}

#[test]
fn cursor_round_trip_and_rejection() {
    let mut t = init_terminal(5, 4).unwrap();
    assert_eq!(t.set_cursor_pos(4, 3), Ok(()));
    assert_eq!(t.get_cursor_pos(), (4, 3));
    assert_eq!(t.set_cursor_pos(5, 0), Err(()));
    // the tracked position reflects the device, which kept its place
    assert_eq!(t.get_cursor_pos(), (4, 3));
    assert_eq!(t.set_cursor_pos(0, 4), Err(()));
    assert_eq!(t.get_cursor_pos(), (4, 3));
}

#[test]
fn resize_round_trip() {
    let mut t = init_terminal(4, 2).unwrap();
    assert_eq!(t.resize(6, 3), Ok(()));
    assert_eq!(t.size(), (6, 3));
    for y in 0..3 {
        for x in 0..4 {
            let _ = t.cell_at(x, y);
        }
    }
}

#[test]
fn resize_failure_leaves_consistent_state() {
    let mut t = init_terminal(4, 2).unwrap();
    assert_eq!(t.resize(0, 3), Err(()));
    assert_eq!(t.size(), (4, 2));
    assert_eq!(t.resize(5, 0x8000), Err(()));
    assert_eq!(t.size(), (4, 2));
    assert_eq!(row_string(&t, 0), "    ");
}

#[test]
fn resize_clamps_cursor_into_new_grid() {
    let mut t = init_terminal(6, 4).unwrap();
    t.set_cursor_pos(5, 3).unwrap();
    assert_eq!(t.resize(3, 2), Ok(()));
    assert_eq!(t.size(), (3, 2));
    assert_eq!(t.get_cursor_pos(), (2, 1));
}

struct Label {
    text: &'static str,
}

impl Window for Label {
    fn size(&self) -> (u16, u16) {
        (self.text.len() as u16, 1)
    }

    fn draw<T: Terminal>(&self, terminal: &mut T, x: i16, y: i16) {
        let line: Vec<(char, ColorPair)> =
            self.text.chars().map(|c| (c, ColorPair { fg: None, bg: None })).collect();
        terminal.print_at(x, y, &line);
    }
}

#[test]
fn draw_window_presents_once() {
    let mut t = init_terminal(6, 2).unwrap();
    let label = Label { text: "hey" };
    assert_eq!(label.size(), (3, 1));
    draw(&mut t, &label);
    assert_eq!(row_string(&t, 0), "hey   ");
    assert_eq!(screen_row_string(&t, 0), "hey   ");
    assert_eq!(t.get_cursor_pos(), (0, 0));
}

#[test]
fn windows_compose_by_offset_print_at() {
    let mut t = init_terminal(6, 2).unwrap();
    let a = Label { text: "one" };
    let b = Label { text: "two" };
    a.draw(&mut t, 0, 0);
    b.draw(&mut t, 3, 1);
    t.present();
    assert_eq!(screen_row_string(&t, 0), "one   ");
    assert_eq!(screen_row_string(&t, 1), "   two");
    assert_eq!(cell('o'), t.cell_at(0, 0));
}

#[test]
fn write_leading_newline_moves_to_next_row() {
    let mut t = init_terminal(4, 2).unwrap();
    t.set_cursor_pos(2, 0).unwrap();
    t.write("\nab");
    assert_eq!(row_string(&t, 0), "    ");
    assert_eq!(row_string(&t, 1), "ab  ");
    assert_eq!(t.get_cursor_pos(), (2, 1));
}

#[test]
fn print_at_last_cell_of_last_row_stops() {
    let mut t = init_terminal(4, 2).unwrap();
    let line = uniform_line("xyz", white_on_black());
    t.print_at(3, 1, &line);
    assert_eq!(row_string(&t, 0), "    ");
    assert_eq!(row_string(&t, 1), "   x");
}
