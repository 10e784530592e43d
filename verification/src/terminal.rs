//! Interaction with a terminal: the abstract contract every backend must
//! uphold.

use vstd::prelude::*;
use crate::color::ColorPair;
use crate::render::{Cell, print_at_spec, write_outcome, zip_colors};

verus! {

/// Represents access to a terminal: a bounded cell grid, a tracked cursor, a
/// default color, and a buffered single-row write that becomes visible on the
/// device only when `present` is called.
pub trait Terminal: Sized {
    /// Number of columns.
    spec fn sp_width(&self) -> int;

    /// Number of rows.
    spec fn sp_height(&self) -> int;

    /// Tracked cursor position, `(column, row)`.
    spec fn sp_cursor(&self) -> (int, int);

    /// Current default color pair.
    spec fn sp_default(&self) -> ColorPair;

    /// The pending cell buffer, row-major.
    spec fn sp_cells(&self) -> Seq<Cell>;

    /// What the device shows: the cells most recently flushed by `present`.
    spec fn sp_screen(&self) -> Seq<Cell>;

    /// The terminal's invariant, established at construction and preserved by
    /// every operation.
    spec fn wf(&self) -> bool;

    /// Sizes the device is able to take on exactly.
    spec fn can_resize(&self, width: u16, height: u16) -> bool;

    /// What the invariant gives: positive dimensions a signed 16-bit
    /// coordinate can address, buffers matching the dimensions, a cursor
    /// inside them, and a fully specified default color.
    proof fn wf_facts(&self)
        requires
            self.wf(),
        ensures
            1 <= self.sp_width() <= 0x7fff,
            1 <= self.sp_height() <= 0x7fff,
            self.sp_cells().len() == self.sp_width() * self.sp_height(),
            self.sp_screen().len() == self.sp_width() * self.sp_height(),
            0 <= self.sp_cursor().0 < self.sp_width(),
            0 <= self.sp_cursor().1 < self.sp_height(),
            self.sp_default().is_full(),
    ;

    /// Returns the number of columns and rows of the terminal.
    fn size(&self) -> (r: (u16, u16))
        requires
            self.wf(),
        ensures
            r.0 as int == self.sp_width(),
            r.1 as int == self.sp_height(),
    ;

    /// Returns the current position of the text cursor.
    fn get_cursor_pos(&self) -> (r: (u16, u16))
        requires
            self.wf(),
        ensures
            (r.0 as int, r.1 as int) == self.sp_cursor(),
    ;

    /// Repositions the text cursor. Fails if the device cannot place the
    /// cursor at the requested position; the tracked position then still
    /// equals the device's actual one, which stays where it was.
    fn set_cursor_pos(&mut self, x: u16, y: u16) -> (r: Result<(), ()>)
        requires
            old(self).wf(),
        ensures
            final(self).wf(),
            final(self).sp_width() == old(self).sp_width(),
            final(self).sp_height() == old(self).sp_height(),
            final(self).sp_default() == old(self).sp_default(),
            final(self).sp_cells() == old(self).sp_cells(),
            final(self).sp_screen() == old(self).sp_screen(),
            r is Ok <==> final(self).sp_cursor() == (x as int, y as int),
            (x as int) < old(self).sp_width() && (y as int) < old(self).sp_height() ==> r is Ok,
            r is Err ==> final(self).sp_cursor() == old(self).sp_cursor(),
    ;

    /// Returns the current default colors of the terminal.
    fn get_default_color(&self) -> (r: ColorPair)
        requires
            self.wf(),
        ensures
            r == self.sp_default(),
    ;

    /// Sets new default colors. A channel given as `None` keeps the old
    /// default's color for that channel: the new value is composed over the
    /// old one, so the default stays fully specified.
    fn set_default_color(&mut self, color: ColorPair)
        requires
            old(self).wf(),
        ensures
            final(self).wf(),
            final(self).sp_default() == color.spec_compose(old(self).sp_default()),
            final(self).sp_width() == old(self).sp_width(),
            final(self).sp_height() == old(self).sp_height(),
            final(self).sp_cursor() == old(self).sp_cursor(),
            final(self).sp_cells() == old(self).sp_cells(),
            final(self).sp_screen() == old(self).sp_screen(),
    ;

    /// Resizes the terminal. Succeeds exactly when the terminal ends up with
    /// the requested size; any size the device can take on is honored. On
    /// failure the terminal keeps a consistent state: the buffers always
    /// match the achieved dimensions.
    fn resize(&mut self, width: u16, height: u16) -> (r: Result<(), ()>)
        requires
            old(self).wf(),
        ensures
            final(self).wf(),
            final(self).sp_default() == old(self).sp_default(),
            r is Ok <==> (final(self).sp_width(), final(self).sp_height()) == (
                width as int,
                height as int,
            ),
            old(self).can_resize(width, height) ==> r is Ok,
            r is Err ==> final(self).sp_width() == old(self).sp_width()
                && final(self).sp_height() == old(self).sp_height() && final(self).sp_cells()
                == old(self).sp_cells() && final(self).sp_screen() == old(self).sp_screen()
                && final(self).sp_cursor() == old(self).sp_cursor(),
    ;

    /// Prints characters in a single row starting at the given coordinates,
    /// each resolved against the default color. Rows outside the grid and
    /// columns outside the row are silently clipped, a leading portion that
    /// lies left of column 0 is skipped, and the row ends at the first
    /// newline, which is consumed but never drawn. The result is not shown
    /// until `present` is called.
    fn print_at(&mut self, x: i16, y: i16, line: &Vec<(char, ColorPair)>)
        requires
            old(self).wf(),
        ensures
            final(self).wf(),
            final(self).sp_cells() == print_at_spec(
                old(self).sp_cells(),
                old(self).sp_width(),
                old(self).sp_height(),
                old(self).sp_default(),
                x as int,
                y as int,
                line@,
            ),
            final(self).sp_width() == old(self).sp_width(),
            final(self).sp_height() == old(self).sp_height(),
            final(self).sp_cursor() == old(self).sp_cursor(),
            final(self).sp_default() == old(self).sp_default(),
            final(self).sp_screen() == old(self).sp_screen(),
    ;

    /// Writes a text at the current cursor position, with the colors of
    /// consecutive characters taken from the stream; with fewer colors than
    /// characters the output is truncated at the shorter length. Rows are
    /// split at newlines and at the row's last column, continuing at column 0
    /// of the next row; text past the last row is dropped. The cursor is
    /// moved after the last character actually written and the buffer is
    /// presented.
    fn write_colored(&mut self, s: &str, colors: &Vec<ColorPair>)
        requires
            old(self).wf(),
        ensures
            final(self).wf(),
            final(self).sp_width() == old(self).sp_width(),
            final(self).sp_height() == old(self).sp_height(),
            final(self).sp_default() == old(self).sp_default(),
            ({
                let r = write_outcome(
                    old(self).sp_cells(),
                    old(self).sp_width(),
                    old(self).sp_height(),
                    old(self).sp_default(),
                    zip_colors(s@, colors@),
                    old(self).sp_cursor(),
                );
                &&& final(self).sp_cells() == r.0
                &&& final(self).sp_screen() == r.0
                &&& (r.1.0 < old(self).sp_width() && r.1.1 < old(self).sp_height() ==> final(self).sp_cursor() == r.1)
                &&& (!(r.1.0 < old(self).sp_width() && r.1.1 < old(self).sp_height()) ==> final(self).sp_cursor() == old(self).sp_cursor())
            }),
    ;

    /// Writes a text at the current cursor position, every character in the
    /// given color; the cursor is moved after the text written and the
    /// buffer is presented.
    fn write_with_color(&mut self, s: &str, color: ColorPair)
        requires
            old(self).wf(),
        ensures
            final(self).wf(),
            final(self).sp_width() == old(self).sp_width(),
            final(self).sp_height() == old(self).sp_height(),
            final(self).sp_default() == old(self).sp_default(),
            ({
                let r = write_outcome(
                    old(self).sp_cells(),
                    old(self).sp_width(),
                    old(self).sp_height(),
                    old(self).sp_default(),
                    zip_colors(s@, Seq::new(s@.len(), |i: int| color)),
                    old(self).sp_cursor(),
                );
                &&& final(self).sp_cells() == r.0
                &&& final(self).sp_screen() == r.0
                &&& (r.1.0 < old(self).sp_width() && r.1.1 < old(self).sp_height() ==> final(self).sp_cursor() == r.1)
                &&& (!(r.1.0 < old(self).sp_width() && r.1.1 < old(self).sp_height()) ==> final(self).sp_cursor() == old(self).sp_cursor())
            }),
    {
        let slen = s.unicode_len();
        let mut colors: Vec<ColorPair> = Vec::new();
        let mut i: usize = 0;
        while i < slen
            invariant
                i <= slen,
                slen == s@.len(),
                colors@.len() == i,
                forall|t: int| 0 <= t < i ==> #[trigger] colors@[t] == color,
            decreases slen - i,
        {
            colors.push(color);
            i += 1;
        }
        proof {
            assert(zip_colors(s@, colors@) =~= zip_colors(
                s@,
                Seq::new(s@.len(), |i: int| color),
            ));
        }
        self.write_colored(s, &colors);
    }

    /// Writes a text at the current cursor position using the default color;
    /// the cursor is moved after the text written and the buffer is
    /// presented.
    fn write(&mut self, s: &str)
        requires
            old(self).wf(),
        ensures
            final(self).wf(),
            final(self).sp_width() == old(self).sp_width(),
            final(self).sp_height() == old(self).sp_height(),
            final(self).sp_default() == old(self).sp_default(),
            ({
                let r = write_outcome(
                    old(self).sp_cells(),
                    old(self).sp_width(),
                    old(self).sp_height(),
                    old(self).sp_default(),
                    zip_colors(s@, Seq::new(s@.len(), |i: int| old(self).sp_default())),
                    old(self).sp_cursor(),
                );
                &&& final(self).sp_cells() == r.0
                &&& final(self).sp_screen() == r.0
                &&& (r.1.0 < old(self).sp_width() && r.1.1 < old(self).sp_height() ==> final(self).sp_cursor() == r.1)
                &&& (!(r.1.0 < old(self).sp_width() && r.1.1 < old(self).sp_height()) ==> final(self).sp_cursor() == old(self).sp_cursor())
            }),
    {
        let color = self.get_default_color();
        self.write_with_color(s, color);
    }

    /// Flushes the pending cell buffer to the device: afterwards the device
    /// shows exactly the buffered cells.
    fn present(&mut self)
        requires
            old(self).wf(),
        ensures
            final(self).wf(),
            final(self).sp_screen() == old(self).sp_cells(),
            final(self).sp_cells() == old(self).sp_cells(),
            final(self).sp_width() == old(self).sp_width(),
            final(self).sp_height() == old(self).sp_height(),
            final(self).sp_cursor() == old(self).sp_cursor(),
            final(self).sp_default() == old(self).sp_default(),
    ;
}

} // verus!
