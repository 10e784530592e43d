use termbuf::attr::{
    convert_color, convert_color_pair, curses_color_attr, cursor_style, hue_index, is_light,
    CursorType,
};
use termbuf::color::{Color, ColorPair};

fn pair(fg: Option<Color>, bg: Option<Color>) -> ColorPair {
    ColorPair { fg, bg }
}

#[test]
fn compose_takes_present_channels_from_self() {
    let a = pair(Some(Color::DarkRed), None);
    let b = pair(Some(Color::DarkBlue), Some(Color::DarkGreen));
    let c = a.compose(b);
    assert_eq!(c.fg, Some(Color::DarkRed));
    assert_eq!(c.bg, Some(Color::DarkGreen));
}

#[test]
fn compose_channelwise_matches_option_or() {
    let colors = [
        None,
        Some(Color::DarkBlack),
        Some(Color::LightWhite),
        Some(Color::DarkCyan),
    ];
    for &fa in &colors {
        for &ba in &colors {
            for &fb in &colors {
                for &bb in &colors {
                    let a = pair(fa, ba);
                    let b = pair(fb, bb);
                    let c = a.compose(b);
                    assert_eq!(c.fg, a.fg.or(b.fg));
                    assert_eq!(c.bg, a.bg.or(b.bg));
                }
            }
        }
    }
}

#[test]
fn compose_idempotent_when_full() {
    let a = pair(Some(Color::LightMagenta), Some(Color::DarkYellow));
    assert_eq!(a.compose(a), a);
}

#[test]
fn compose_against_full_default_is_full() {
    let d = pair(Some(Color::DarkWhite), Some(Color::DarkBlack));
    let partials = [
        pair(None, None),
        pair(Some(Color::DarkRed), None),
        pair(None, Some(Color::LightBlue)),
        pair(Some(Color::LightGreen), Some(Color::DarkCyan)),
    ];
    for &a in &partials {
        let c = a.compose(d);
        assert!(c.fg.is_some());
        assert!(c.bg.is_some());
    }
}

#[test]
fn console_attr_table() {
    assert_eq!(convert_color(Color::DarkBlack), 0);
    assert_eq!(convert_color(Color::DarkBlue), 1);
    assert_eq!(convert_color(Color::DarkGreen), 2);
    assert_eq!(convert_color(Color::DarkCyan), 3);
    assert_eq!(convert_color(Color::DarkRed), 4);
    assert_eq!(convert_color(Color::DarkMagenta), 5);
    assert_eq!(convert_color(Color::DarkYellow), 6);
    assert_eq!(convert_color(Color::DarkWhite), 7);
    // each light color is its dark counterpart plus the intensity bit
    assert_eq!(convert_color(Color::LightBlack), 8);
    assert_eq!(convert_color(Color::LightBlue), 9);
    assert_eq!(convert_color(Color::LightGreen), 10);
    assert_eq!(convert_color(Color::LightCyan), 11);
    assert_eq!(convert_color(Color::LightRed), 12);
    assert_eq!(convert_color(Color::LightMagenta), 13);
    assert_eq!(convert_color(Color::LightYellow), 14);
    assert_eq!(convert_color(Color::LightWhite), 15);
}

#[test]
fn console_pair_attr_packs_foreground_low() {
    let c = pair(Some(Color::DarkRed), Some(Color::DarkBlue));
    assert_eq!(convert_color_pair(c), 4 + 1 * 16);
    let d = pair(Some(Color::LightWhite), Some(Color::DarkBlack));
    assert_eq!(convert_color_pair(d), 15);
}

#[test]
fn curses_hue_and_bold() {
    assert_eq!(hue_index(Color::DarkBlack), 0);
    assert_eq!(hue_index(Color::DarkRed), 1);
    assert_eq!(hue_index(Color::DarkGreen), 2);
    assert_eq!(hue_index(Color::DarkYellow), 3);
    assert_eq!(hue_index(Color::DarkBlue), 4);
    assert_eq!(hue_index(Color::DarkMagenta), 5);
    assert_eq!(hue_index(Color::DarkCyan), 6);
    assert_eq!(hue_index(Color::DarkWhite), 7);
    assert_eq!(hue_index(Color::LightRed), 1);
    assert_eq!(hue_index(Color::LightWhite), 7);
    assert!(!is_light(Color::DarkRed));
    assert!(is_light(Color::LightRed));
}

#[test]
fn curses_pair_number() {
    let c = pair(Some(Color::LightRed), Some(Color::DarkBlack));
    let (bold, n) = curses_color_attr(c);
    assert!(bold);
    assert_eq!(n, 1 * 8 + 0 + 1);
    let d = pair(Some(Color::DarkWhite), Some(Color::DarkBlue));
    let (bold2, n2) = curses_color_attr(d);
    assert!(!bold2);
    assert_eq!(n2, 7 * 8 + 4 + 1);
}

#[test]
fn cursor_styles() {
    assert_eq!(cursor_style(CursorType::Big), (100, true));
    assert_eq!(cursor_style(CursorType::Small), (25, true));
    assert_eq!(cursor_style(CursorType::Hidden), (25, false));
}
