//! The console-buffer terminal: the concrete, in-memory side of a terminal
//! session, carrying the verified color, cursor and rendering state that a
//! platform layer flushes to the physical device.

use vstd::prelude::*;
use crate::terminal::Terminal as _;
use crate::color::{Color, ColorPair};
use crate::render::{
    Cell, grid_index, lemma_grid_area_bound, lemma_grid_index_in_range, lemma_line_len,
    lemma_line_len_at_least, line_len, resolve_cell, row_write, write_outcome, write_spec,
    zip_colors,
};

verus! {

/// The buffered cell-grid terminal: the in-memory side of a terminal session.
/// It owns the pending cell buffer, the flushed screen, the tracked cursor
/// and the default color; a platform layer feeds its flushed cells to the
/// physical device.
pub struct Terminal {
    width: u16,
    height: u16,
    cells: Vec<Cell>,
    screen: Vec<Cell>,
    cursor_x: u16,
    cursor_y: u16,
    default_color: ColorPair,
}

impl Terminal {
    /// Sets new default colors, composing the given pair over the old
    /// default, so a channel given as `None` keeps its old color.
    pub fn set_default_color(&mut self, color: ColorPair)
        requires
            old(self).wf(),
        ensures
            final(self).wf(),
            final(self).sp_default() == color.spec_compose(old(self).sp_default()),
            final(self).sp_width() == old(self).sp_width(),
            final(self).sp_height() == old(self).sp_height(),
            final(self).sp_cursor() == old(self).sp_cursor(),
            final(self).sp_cells() == old(self).sp_cells(),
            final(self).sp_screen() == old(self).sp_screen(),
    {
        self.default_color = color.compose(self.default_color);
    }

    /// Writes a text at the cursor using the default color for every
    /// character; the cursor is moved after the text written and the buffer
    /// is presented.
    pub fn write(&mut self, s: &str)
        requires
            old(self).wf(),
        ensures
            final(self).wf(),
            final(self).sp_width() == old(self).sp_width(),
            final(self).sp_height() == old(self).sp_height(),
            final(self).sp_default() == old(self).sp_default(),
            ({
                let r = write_outcome(
                    old(self).sp_cells(),
                    old(self).sp_width(),
                    old(self).sp_height(),
                    old(self).sp_default(),
                    zip_colors(s@, Seq::new(s@.len(), |i: int| old(self).sp_default())),
                    old(self).sp_cursor(),
                );
                &&& final(self).sp_cells() == r.0
                &&& final(self).sp_screen() == r.0
                &&& (r.1.0 < old(self).sp_width() && r.1.1 < old(self).sp_height() ==> final(self).sp_cursor() == r.1)
                &&& (!(r.1.0 < old(self).sp_width() && r.1.1 < old(self).sp_height()) ==> final(self).sp_cursor() == old(self).sp_cursor())
            }),
    {
        crate::terminal::Terminal::write(self, s)
    }

    /// Writes a text at the cursor, every character in the given color; the
    /// cursor is moved after the text written and the buffer is presented.
    pub fn write_with_color(&mut self, s: &str, color: ColorPair)
        requires
            old(self).wf(),
        ensures
            final(self).wf(),
            final(self).sp_width() == old(self).sp_width(),
            final(self).sp_height() == old(self).sp_height(),
            final(self).sp_default() == old(self).sp_default(),
            ({
                let r = write_outcome(
                    old(self).sp_cells(),
                    old(self).sp_width(),
                    old(self).sp_height(),
                    old(self).sp_default(),
                    zip_colors(s@, Seq::new(s@.len(), |i: int| color)),
                    old(self).sp_cursor(),
                );
                &&& final(self).sp_cells() == r.0
                &&& final(self).sp_screen() == r.0
                &&& (r.1.0 < old(self).sp_width() && r.1.1 < old(self).sp_height() ==> final(self).sp_cursor() == r.1)
                &&& (!(r.1.0 < old(self).sp_width() && r.1.1 < old(self).sp_height()) ==> final(self).sp_cursor() == old(self).sp_cursor())
            }),
    {
        crate::terminal::Terminal::write_with_color(self, s, color)
    }

    /// The invariant behind [`Terminal::wf`], spelled over the fields.
    closed spec fn inv(&self) -> bool {
        &&& 1 <= self.width <= 0x7fff
        &&& 1 <= self.height <= 0x7fff
        &&& self.cells@.len() == self.width as int * self.height as int
        &&& self.screen@.len() == self.width as int * self.height as int
        &&& self.cursor_x < self.width
        &&& self.cursor_y < self.height
        &&& self.default_color.is_full()
    }

    /// The pending cell at column `x` of row `y`.
    pub fn cell_at(&self, x: u16, y: u16) -> (r: Cell)
        requires
            self.wf(),
            (x as int) < self.sp_width(),
            (y as int) < self.sp_height(),
        ensures
            r == self.sp_cells()[grid_index(self.sp_width(), x as int, y as int)],
    {
        proof {
            lemma_grid_area_bound(self.width as int, self.height as int);
            lemma_grid_index_in_range(
                self.width as int,
                self.height as int,
                x as int,
                y as int,
            );
        }
        self.cells[(y as usize) * (self.width as usize) + (x as usize)]
    }

    /// The flushed (visible) cell at column `x` of row `y`.
    pub fn screen_at(&self, x: u16, y: u16) -> (r: Cell)
        requires
            self.wf(),
            (x as int) < self.sp_width(),
            (y as int) < self.sp_height(),
        ensures
            r == self.sp_screen()[grid_index(self.sp_width(), x as int, y as int)],
    {
        proof {
            lemma_grid_area_bound(self.width as int, self.height as int);
            lemma_grid_index_in_range(
                self.width as int,
                self.height as int,
                x as int,
                y as int,
            );
        }
        self.screen[(y as usize) * (self.width as usize) + (x as usize)]
    }
}

/// Initializes the terminal's in-memory side at the given device dimensions,
/// which must be positive and addressable by a signed 16-bit coordinate. The
/// buffers start blank under the initial default color, white on black, and
/// the cursor sits in the top left corner.
pub fn init_terminal(width: u16, height: u16) -> (r: Result<Terminal, ()>)
    ensures
        r is Ok <==> 1 <= width <= 0x7fff && 1 <= height <= 0x7fff,
        r is Ok ==> ({
            let t = r.unwrap();
            &&& t.wf()
            &&& t.sp_width() == width as int
            &&& t.sp_height() == height as int
            &&& t.sp_cursor() == (0int, 0int)
            &&& t.sp_default() == (ColorPair {
                fg: Some(Color::DarkWhite),
                bg: Some(Color::DarkBlack),
            })
            &&& forall|i: int|
                0 <= i < t.sp_cells().len() ==> #[trigger] t.sp_cells()[i] == (Cell {
                    ch: ' ',
                    fg: Color::DarkWhite,
                    bg: Color::DarkBlack,
                })
            &&& t.sp_screen() == t.sp_cells()
        }),
{
    if width == 0 || height == 0 || width > 0x7fff || height > 0x7fff {
        return Err(());
    }
    proof {
        lemma_grid_area_bound(width as int, height as int);
    }
    let len: usize = (width as usize) * (height as usize);
    let blank = Cell { ch: ' ', fg: Color::DarkWhite, bg: Color::DarkBlack };
    let mut cells: Vec<Cell> = Vec::new();
    let mut i: usize = 0;
    while i < len
        invariant
            i <= len,
            cells@.len() == i,
            forall|t: int| 0 <= t < i ==> #[trigger] cells@[t] == blank,
        decreases len - i,
    {
        cells.push(blank);
        i += 1;
    }
    let mut screen: Vec<Cell> = Vec::new();
    let mut j: usize = 0;
    while j < len
        invariant
            j <= len,
            screen@.len() == j,
            forall|t: int| 0 <= t < j ==> #[trigger] screen@[t] == blank,
        decreases len - j,
    {
        screen.push(blank);
        j += 1;
    }
    let term = Terminal {
        width,
        height,
        cells,
        screen,
        cursor_x: 0,
        cursor_y: 0,
        default_color: ColorPair { fg: Some(Color::DarkWhite), bg: Some(Color::DarkBlack) },
    };
    proof {
        assert(term.sp_screen() =~= term.sp_cells());
    }
    Ok(term)
}

impl crate::terminal::Terminal for Terminal {
    closed spec fn sp_width(&self) -> int {
        self.width as int
    }

    closed spec fn sp_height(&self) -> int {
        self.height as int
    }

    closed spec fn sp_cursor(&self) -> (int, int) {
        (self.cursor_x as int, self.cursor_y as int)
    }

    closed spec fn sp_default(&self) -> ColorPair {
        self.default_color
    }

    closed spec fn sp_cells(&self) -> Seq<Cell> {
        self.cells@
    }

    closed spec fn sp_screen(&self) -> Seq<Cell> {
        self.screen@
    }

    closed spec fn wf(&self) -> bool {
        self.inv()
    }

    closed spec fn can_resize(&self, width: u16, height: u16) -> bool {
        1 <= width <= 0x7fff && 1 <= height <= 0x7fff
    }

    proof fn wf_facts(&self) {
    }

    fn size(&self) -> (r: (u16, u16)) {
        (self.width, self.height)
    }

    fn get_cursor_pos(&self) -> (r: (u16, u16)) {
        (self.cursor_x, self.cursor_y)
    }

    fn set_cursor_pos(&mut self, x: u16, y: u16) -> (r: Result<(), ()>) {
        if x < self.width && y < self.height {
            self.cursor_x = x;
            self.cursor_y = y;
            Ok(())
        } else {
            Err(())
        }
    }

    fn get_default_color(&self) -> (r: ColorPair) {
        self.default_color
    }

    fn set_default_color(&mut self, color: ColorPair) {
        Terminal::set_default_color(self, color);
    }

    fn resize(&mut self, width: u16, height: u16) -> (r: Result<(), ()>) {
        if width == 0 || height == 0 || width > 0x7fff || height > 0x7fff {
            return Err(());
        }
        proof {
            lemma_grid_area_bound(width as int, height as int);
        }
        let len: usize = (width as usize) * (height as usize);
        let blank = Cell {
            ch: ' ',
            fg: self.default_color.fg.unwrap(),
            bg: self.default_color.bg.unwrap(),
        };
        let mut cells: Vec<Cell> = Vec::new();
        let mut i: usize = 0;
        while i < len
            invariant
                i <= len,
                cells@.len() == i,
            decreases len - i,
        {
            if i < self.cells.len() {
                let c = self.cells[i];
                cells.push(c);
            } else {
                cells.push(blank);
            }
            i += 1;
        }
        let mut screen: Vec<Cell> = Vec::new();
        let mut j: usize = 0;
        while j < len
            invariant
                j <= len,
                screen@.len() == j,
            decreases len - j,
        {
            if j < self.screen.len() {
                let c = self.screen[j];
                screen.push(c);
            } else {
                screen.push(blank);
            }
            j += 1;
        }
        self.cells = cells;
        self.screen = screen;
        self.width = width;
        self.height = height;
        if self.cursor_x >= width {
            self.cursor_x = width - 1;
        }
        if self.cursor_y >= height {
            self.cursor_y = height - 1;
        }
        Ok(())
    }

    fn print_at(&mut self, x: i16, y: i16, line: &Vec<(char, ColorPair)>) {
        if y < 0 {
            return;
        }
        let yu = y as u16;
        if yu >= self.height {
            return;
        }
        let ghost old_cells = self.cells@;
        let skip: usize = if x < 0 {
            (-(x as i32)) as usize
        } else {
            0
        };
        let col: u16 = if x < 0 {
            0
        } else {
            x as u16
        };
        let ghost visible = if skip as int >= line@.len() {
            Seq::<(char, ColorPair)>::empty()
        } else {
            line@.skip(skip as int)
        };
        proof {
            lemma_line_len(visible);
        }
        if col >= self.width {
            proof {
                assert(self.cells@ =~= row_write(
                    old_cells,
                    self.sp_width(),
                    y as int,
                    col as int,
                    visible.take(0),
                    self.sp_default(),
                ));
            }
            return;
        }
        if skip >= line.len() {
            proof {
                assert(self.cells@ =~= row_write(
                    old_cells,
                    self.sp_width(),
                    y as int,
                    col as int,
                    visible.take(0),
                    self.sp_default(),
                ));
            }
            return;
        }
        let avail: usize = (self.width - col) as usize;
        proof {
            lemma_grid_area_bound(self.sp_width(), self.sp_height());
            lemma_grid_index_in_range(
                self.sp_width(),
                self.sp_height(),
                col as int,
                yu as int,
            );
        }
        let base: usize = (yu as usize) * (self.width as usize) + (col as usize);
        let mut j: usize = 0;
        while j < avail && skip + j < line.len() && line[skip + j].0 != '\n'
            invariant
                self.inv(),
                self.width == old(self).width,
                self.height == old(self).height,
                self.cursor_x == old(self).cursor_x,
                self.cursor_y == old(self).cursor_y,
                self.default_color == old(self).default_color,
                self.screen@ == old(self).screen@,
                old_cells == old(self).cells@,
                0 < self.width,
                col < self.width,
                yu < self.height,
                avail == self.width - col,
                base == yu as int * self.width as int + col as int,
                skip <= 0x8000,
                skip < line@.len(),
                visible == line@.skip(skip as int),
                j <= avail,
                skip + j <= line@.len(),
                forall|t: int| 0 <= t < j ==> (#[trigger] visible[t]).0 != '\n',
                self.cells@ == row_write(
                    old_cells,
                    self.width as int,
                    yu as int,
                    col as int,
                    visible.take(j as int),
                    self.default_color,
                ),
            decreases avail - j,
        {
            let (ch, cp) = line[skip + j];
            let resolved = cp.compose(self.default_color);
            let cell = Cell { ch, fg: resolved.fg.unwrap(), bg: resolved.bg.unwrap() };
            proof {
                lemma_grid_area_bound(self.sp_width(), self.sp_height());
                lemma_grid_index_in_range(
                    self.sp_width(),
                    self.sp_height(),
                    col as int + j as int,
                    yu as int,
                );
                assert(cell == resolve_cell(visible[j as int].0, visible[j as int].1,
                    self.default_color));
            }
            self.cells[base + j] = cell;
            proof {
                assert(self.cells@ =~= row_write(
                    old_cells,
                    self.width as int,
                    yu as int,
                    col as int,
                    visible.take(j as int + 1),
                    self.default_color,
                ));
            }
            j += 1;
        }
        proof {
            lemma_line_len_at_least(visible, j as int);
            if j < avail && skip + j < line@.len() {
                assert(visible[j as int].0 == '\n');
                assert(line_len(visible) <= j);
            } else if j < avail {
                assert(visible.len() == j);
            }
            assert(j as int == if line_len(visible) <= avail as int {
                line_len(visible)
            } else {
                avail as int
            });
        }
    }

    fn write_colored(&mut self, s: &str, colors: &Vec<ColorPair>) {
        let ghost pairs0 = zip_colors(s@, colors@);
        let ghost w = self.sp_width();
        let ghost h = self.sp_height();
        let ghost def = self.sp_default();
        let ghost target = write_outcome(
            self.sp_cells(),
            w,
            h,
            def,
            pairs0,
            self.sp_cursor(),
        );
        let slen = s.unicode_len();
        let total: usize = if slen <= colors.len() {
            slen
        } else {
            colors.len()
        };
        proof {
            assert(pairs0.skip(0) =~= pairs0);
        }
        let mut pos: usize = 0;
        let mut row: u16 = self.cursor_y;
        let mut col: u16 = self.cursor_x;
        let mut cur_x: u16 = self.cursor_x;
        let mut cur_y: u16 = self.cursor_y;
        while row < self.height && pos < total
            invariant
                self.inv(),
                self.width == old(self).width,
                self.height == old(self).height,
                self.cursor_x == old(self).cursor_x,
                self.cursor_y == old(self).cursor_y,
                self.default_color == old(self).default_color,
                self.screen@ == old(self).screen@,
                w == self.sp_width(),
                h == self.sp_height(),
                def == self.sp_default(),
                pairs0 == zip_colors(s@, colors@),
                total == pairs0.len(),
                total <= s@.len(),
                total <= colors@.len(),
                pos <= total,
                col < self.width,
                row <= self.height,
                cur_x <= self.width,
                cur_y < self.height,
                write_spec(
                    self.cells@,
                    w,
                    h,
                    def,
                    pairs0.skip(pos as int),
                    col as int,
                    row as int,
                    (cur_x as int, cur_y as int),
                ) == target,
            decreases self.height - row,
        {
            let ghost remaining = pairs0.skip(pos as int);
            let avail: usize = (self.width - col) as usize;
            let rem: usize = total - pos;
            let window: usize = if avail <= rem {
                avail
            } else {
                rem
            };
            let ghost seg = remaining.take(window as int);
            proof {
                assert forall|t: int| 0 <= t < window implies #[trigger] seg[t] == (
                    s@[pos + t],
                    colors@[pos + t],
                ) by {
                    assert(seg[t] == pairs0[pos + t]);
                }
            }
            let mut rendered: usize = 0;
            while rendered < window && s.get_char(pos + rendered) != '\n'
                invariant
                    window <= rem,
                    rem == total - pos,
                    pos + window <= total,
                    total <= s@.len(),
                    rendered <= window,
                    seg.len() == window,
                    forall|t: int|
                        0 <= t < window ==> #[trigger] seg[t] == (s@[pos + t], colors@[pos + t]),
                    forall|t: int| 0 <= t < rendered ==> (#[trigger] seg[t]).0 != '\n',
                decreases window - rendered,
            {
                rendered += 1;
            }
            proof {
                lemma_line_len_at_least(seg, rendered as int);
                lemma_line_len(seg);
                if rendered < window {
                    assert(seg[rendered as int].0 == '\n');
                }
                assert(line_len(seg) == rendered as int);
            }
            let consumed: usize = if rendered < window {
                rendered + 1
            } else {
                rendered
            };
            let mut rowvec: Vec<(char, ColorPair)> = Vec::new();
            let mut t: usize = 0;
            while t < rendered
                invariant
                    rendered <= window,
                    pos + window <= total,
                    total <= s@.len(),
                    total <= colors@.len(),
                    seg.len() == window,
                    forall|u: int|
                        0 <= u < window ==> #[trigger] seg[u] == (s@[pos + u], colors@[pos + u]),
                    t <= rendered,
                    rowvec@.len() == t,
                    forall|u: int| 0 <= u < t ==> #[trigger] rowvec@[u] == seg[u],
                decreases rendered - t,
            {
                let ch = s.get_char(pos + t);
                let cp = colors[pos + t];
                rowvec.push((ch, cp));
                proof {
                    assert(rowvec@[t as int] == seg[t as int]);
                }
                t += 1;
            }
            proof {
                assert(rowvec@ =~= seg.take(rendered as int));
            }
            let ghost cells_before = self.cells@;
            self.print_at(col as i16, row as i16, &rowvec);
            proof {
                // the single-row primitive drew exactly this row's segment
                let visible = if 0 >= rowvec@.len() {
                    Seq::<(char, ColorPair)>::empty()
                } else {
                    rowvec@.skip(0)
                };
                assert(visible =~= rowvec@);
                assert forall|u: int| 0 <= u < rowvec@.len() implies (#[trigger] rowvec@[u]).0
                    != '\n' by {
                    assert(rowvec@[u] == seg[u]);
                    lemma_line_len(seg);
                }
                lemma_line_len_at_least(visible, visible.len() as int);
                lemma_line_len(visible);
                assert(visible.take(rendered as int) =~= rowvec@);
                assert(self.cells@ == row_write(
                    cells_before,
                    w,
                    row as int,
                    col as int,
                    rowvec@,
                    def,
                ));
                // one unfolding of the multi-line write
                assert(remaining.take(rendered as int) =~= rowvec@);
                assert(remaining.skip(consumed as int) =~= pairs0.skip(pos + consumed));
                assert(write_spec(
                    self.cells@,
                    w,
                    h,
                    def,
                    pairs0.skip(pos + consumed),
                    0,
                    row + 1,
                    (col + rendered, row as int),
                ) == target);
            }
            cur_x = col + (rendered as u16);
            cur_y = row;
            pos = pos + consumed;
            col = 0;
            row = row + 1;
        }
        proof {
            assert((self.cells@, (cur_x as int, cur_y as int)) == target);
        }
        let _ = self.set_cursor_pos(cur_x, cur_y);
        self.present();
    }

    fn present(&mut self) {
        let mut i: usize = 0;
        while i < self.cells.len()
            invariant
                self.inv(),
                self.width == old(self).width,
                self.height == old(self).height,
                self.cursor_x == old(self).cursor_x,
                self.cursor_y == old(self).cursor_y,
                self.default_color == old(self).default_color,
                self.cells@ == old(self).cells@,
                self.screen@.len() == old(self).screen@.len(),
                i <= self.cells@.len(),
                forall|t: int| 0 <= t < i ==> #[trigger] self.screen@[t] == self.cells@[t],
            decreases self.cells@.len() - i,
        {
            let c = self.cells[i];
            self.screen[i] = c;
            i += 1;
        }
        proof {
            assert(self.screen@ =~= old(self).cells@);
        }
    }
}

} // verus!
