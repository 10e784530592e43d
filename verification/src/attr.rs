//! Device attribute encodings: the total, table-driven mappings from the
//! 16-value palette to the native representations a backend hands its device.
//! Each light color shares the hue index of its dark counterpart and is
//! distinguished by a single intensity bit (or a bold flag).

use vstd::prelude::*;
use crate::color::{Color, ColorPair};

verus! {

/// Console attribute of one color: a 3-bit hue (red 4, green 2, blue 1,
/// composites by or) plus an intensity bit (8) for the light variants.
pub open spec fn spec_color_attr(c: Color) -> u16 {
    match c {
        Color::DarkBlack => 0,
        Color::DarkBlue => 1,
        Color::DarkGreen => 2,
        Color::DarkCyan => 3,
        Color::DarkRed => 4,
        Color::DarkMagenta => 5,
        Color::DarkYellow => 6,
        Color::DarkWhite => 7,
        Color::LightBlack => 8,
        Color::LightBlue => 9,
        Color::LightGreen => 10,
        Color::LightCyan => 11,
        Color::LightRed => 12,
        Color::LightMagenta => 13,
        Color::LightYellow => 14,
        Color::LightWhite => 15,
    }
}

/// Converts one color to its console attribute value.
pub fn convert_color(color: Color) -> (r: u16)
    ensures
        r == spec_color_attr(color),
        r < 16,
{
    match color {
        Color::DarkBlack => 0,
        Color::DarkBlue => 1,
        Color::DarkGreen => 2,
        Color::DarkCyan => 3,
        Color::DarkRed => 4,
        Color::DarkMagenta => 5,
        Color::DarkYellow => 6,
        Color::DarkWhite => 7,
        Color::LightBlack => 8,
        Color::LightBlue => 9,
        Color::LightGreen => 10,
        Color::LightCyan => 11,
        Color::LightRed => 12,
        Color::LightMagenta => 13,
        Color::LightYellow => 14,
        Color::LightWhite => 15,
    }
}

/// Console attribute of a fully specified pair: the foreground attribute in
/// the low four bits, the background attribute in the next four.
pub open spec fn spec_pair_attr(color: ColorPair) -> int
    recommends
        color.is_full(),
{
    spec_color_attr(color.fg.unwrap()) + spec_color_attr(color.bg.unwrap()) * 16
}

/// Converts a fully specified pair to its console attribute value.
pub fn convert_color_pair(color: ColorPair) -> (r: u16)
    requires
        color.is_full(),
    ensures
        r == spec_pair_attr(color),
        r < 256,
{
    convert_color(color.fg.unwrap()) + convert_color(color.bg.unwrap()) * 16
}

/// Curses hue index of one color: the light variant shares its dark
/// counterpart's index and is rendered bold instead.
pub open spec fn spec_hue_index(c: Color) -> u16 {
    match c {
        Color::DarkBlack | Color::LightBlack => 0,
        Color::DarkRed | Color::LightRed => 1,
        Color::DarkGreen | Color::LightGreen => 2,
        Color::DarkYellow | Color::LightYellow => 3,
        Color::DarkBlue | Color::LightBlue => 4,
        Color::DarkMagenta | Color::LightMagenta => 5,
        Color::DarkCyan | Color::LightCyan => 6,
        Color::DarkWhite | Color::LightWhite => 7,
    }
}

/// Whether the color is one of the eight light (high-intensity) variants.
pub open spec fn spec_is_light(c: Color) -> bool {
    match c {
        Color::LightBlack | Color::LightRed | Color::LightGreen | Color::LightYellow
            | Color::LightBlue | Color::LightMagenta | Color::LightCyan | Color::LightWhite => true,
        _ => false,
    }
}

/// Curses hue index of one color.
pub fn hue_index(color: Color) -> (r: u16)
    ensures
        r == spec_hue_index(color),
        r < 8,
{
    match color {
        Color::DarkBlack | Color::LightBlack => 0,
        Color::DarkRed | Color::LightRed => 1,
        Color::DarkGreen | Color::LightGreen => 2,
        Color::DarkYellow | Color::LightYellow => 3,
        Color::DarkBlue | Color::LightBlue => 4,
        Color::DarkMagenta | Color::LightMagenta => 5,
        Color::DarkCyan | Color::LightCyan => 6,
        Color::DarkWhite | Color::LightWhite => 7,
    }
}

/// Whether a color must be rendered with the bold (intensity) attribute.
pub fn is_light(color: Color) -> (r: bool)
    ensures
        r == spec_is_light(color),
{
    match color {
        Color::LightBlack | Color::LightRed | Color::LightGreen | Color::LightYellow
            | Color::LightBlue | Color::LightMagenta | Color::LightCyan | Color::LightWhite => true,
        _ => false,
    }
}

/// Curses rendering of a fully specified pair: a bold flag taken from the
/// foreground's brightness, and the color-pair number `fg_hue * 8 + bg_hue + 1`
/// under which the initialization registered that hue combination.
pub fn curses_color_attr(color: ColorPair) -> (r: (bool, u16))
    requires
        color.is_full(),
    ensures
        r.0 == spec_is_light(color.fg.unwrap()),
        r.1 == spec_hue_index(color.fg.unwrap()) * 8 + spec_hue_index(color.bg.unwrap()) + 1,
        1 <= r.1 <= 64,
{
    let bold = is_light(color.fg.unwrap());
    let pair = hue_index(color.fg.unwrap()) * 8 + hue_index(color.bg.unwrap()) + 1;
    (bold, pair)
}

/// How a cursor is shown: hidden, a small caret, or a full cell.
#[derive(Copy, Clone, PartialEq, Eq, Structural, Debug)]
pub enum CursorType {
    Hidden,
    Small,
    Big,
}

/// Device cursor settings for a cursor type: the fill percentage of the cell
/// and whether the cursor is visible at all.
pub fn cursor_style(cursor: CursorType) -> (r: (u32, bool))
    ensures
        r.0 == if cursor is Big {
            100u32
        } else {
            25u32
        },
        r.1 == !(cursor is Hidden),
{
    let size: u32 = match cursor {
        CursorType::Big => 100,
        _ => 25,
    };
    let visible = match cursor {
        CursorType::Hidden => false,
        _ => true,
    };
    (size, visible)
}

} // verus!
