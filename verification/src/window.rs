//! Drawing surfaces that compose onto a terminal.

use vstd::prelude::*;
use crate::terminal::Terminal;

verus! {

/// A drawing surface that renders itself into a terminal at an offset,
/// purely through the terminal's buffered single-row writes: it may change
/// the pending cells, but never the geometry, the cursor, the default color,
/// or what the device already shows. The top-level caller presents once
/// after the whole surface tree has drawn.
pub trait Window {
    /// Returns the width and height of the window.
    fn size(&self) -> (u16, u16);

    /// Draws the window into the terminal with its top left corner at the
    /// given coordinates; parts that fall outside the grid are clipped.
    fn draw<T: Terminal>(&self, terminal: &mut T, x: i16, y: i16)
        requires
            old(terminal).wf(),
        ensures
            final(terminal).wf(),
            final(terminal).sp_width() == old(terminal).sp_width(),
            final(terminal).sp_height() == old(terminal).sp_height(),
            final(terminal).sp_cursor() == old(terminal).sp_cursor(),
            final(terminal).sp_default() == old(terminal).sp_default(),
            final(terminal).sp_screen() == old(terminal).sp_screen(),
    ;
}

/// Draws a window in the top left corner of the terminal, then presents the
/// result once: afterwards the device shows the pending buffer the window
/// left behind, and geometry, cursor and default color are untouched.
pub fn draw<T: Terminal, W: Window>(terminal: &mut T, window: &W)
    requires
        old(terminal).wf(),
    ensures
        final(terminal).wf(),
        final(terminal).sp_width() == old(terminal).sp_width(),
        final(terminal).sp_height() == old(terminal).sp_height(),
        final(terminal).sp_cursor() == old(terminal).sp_cursor(),
        final(terminal).sp_default() == old(terminal).sp_default(),
        final(terminal).sp_screen() == final(terminal).sp_cells(),
{
    window.draw(terminal, 0, 0);
    terminal.present();
}

} // verus!
