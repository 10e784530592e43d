//! Types for color handling: the 16-value terminal palette and possibly
//! partial foreground/background pairs with left-biased composition.

use vstd::prelude::*;

verus! {

/// Standard 16 colors of the terminal: 8 dark hues and their light
/// (high-intensity) counterparts. The actual color displayed may vary.
#[derive(Copy, Clone, PartialEq, Eq, Structural, Debug)]
pub enum Color {
    DarkBlack,
    DarkRed,
    DarkGreen,
    DarkBlue,
    DarkCyan,
    DarkMagenta,
    DarkYellow,
    DarkWhite,
    LightBlack,
    LightRed,
    LightGreen,
    LightBlue,
    LightCyan,
    LightMagenta,
    LightYellow,
    LightWhite,
}

/// Holds the foreground (text) color and background color. `None` means the
/// color is inherited from the surrounding context, never "no color": a pair
/// must be fully specified before it can be turned into a device attribute.
#[derive(Copy, Clone, PartialEq, Eq, Structural, Debug)]
pub struct ColorPair {
    /// Foreground color.
    pub fg: Option<Color>,
    /// Background color.
    pub bg: Option<Color>,
}

impl ColorPair {
    /// What `compose` returns: each channel is taken from `self` where
    /// present, else from `other`.
    pub open spec fn spec_compose(self, other: ColorPair) -> ColorPair {
        ColorPair {
            fg: if self.fg is Some {
                self.fg
            } else {
                other.fg
            },
            bg: if self.bg is Some {
                self.bg
            } else {
                other.bg
            },
        }
    }

    /// Both channels are present.
    pub open spec fn is_full(self) -> bool {
        self.fg is Some && self.bg is Some
    }

    /// Produces a copy of `self`, but with missing colors taken from `other`.
    pub fn compose(self, other: ColorPair) -> (r: ColorPair)
        ensures
            r == self.spec_compose(other),
    {
        ColorPair {
            fg: if self.fg.is_some() {
                self.fg
            } else {
                other.fg
            },
            bg: if self.bg.is_some() {
                self.bg
            } else {
                other.bg
            },
        }
    }
}

/// Law: composition is a per-channel fallback merge. Each channel of
/// `a.compose(b)` equals `a`'s channel where present, else `b`'s; a fully
/// specified pair composed with itself is unchanged.
pub proof fn lemma_compose_channels(a: ColorPair, b: ColorPair)
    ensures
        a.spec_compose(b).fg == if a.fg is Some {
            a.fg
        } else {
            b.fg
        },
        a.spec_compose(b).bg == if a.bg is Some {
            a.bg
        } else {
            b.bg
        },
        a.is_full() ==> a.spec_compose(a) == a,
{
}

/// Law: composing any pair against a fully specified fallback yields a fully
/// specified pair; no `None` channel survives.
pub proof fn lemma_compose_full(a: ColorPair, d: ColorPair)
    requires
        d.is_full(),
    ensures
        a.spec_compose(d).is_full(),
{
}

} // verus!
