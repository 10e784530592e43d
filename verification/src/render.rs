//! The clipped line renderer's mathematical model: what one `print_at` call
//! and one buffered multi-line write do to a flat grid of cells.

use vstd::prelude::*;
use crate::color::ColorPair;
use crate::color::Color;

verus! {

/// One screen position: a glyph and a fully resolved color.
#[derive(Copy, Clone, PartialEq, Eq, Structural, Debug)]
pub struct Cell {
    /// The character shown in the cell.
    pub ch: char,
    /// Resolved foreground color.
    pub fg: Color,
    /// Resolved background color.
    pub bg: Color,
}

/// The flat index of column `x` on row `y` in a grid `width` cells wide.
pub open spec fn grid_index(width: int, x: int, y: int) -> int {
    y * width + x
}

/// A position inside the grid maps to an index inside the flat buffer.
pub proof fn lemma_grid_index_in_range(width: int, height: int, x: int, y: int)
    requires
        0 <= x < width,
        0 <= y < height,
    ensures
        0 <= grid_index(width, x, y) < width * height,
{
    assert(0 <= y * width + x < width * height) by (nonlinear_arith)
        requires
            0 <= x < width,
            0 <= y < height,
    ;
}

/// The area of a grid whose dimensions a signed 16-bit coordinate can
/// address stays comfortably inside a 32-bit count.
pub proof fn lemma_grid_area_bound(width: int, height: int)
    requires
        0 <= width <= 0x7fff,
        0 <= height <= 0x7fff,
    ensures
        0 <= width * height <= 0x3fff0001,
{
    assert(0 <= width * height <= 0x3fff0001) by (nonlinear_arith)
        requires
            0 <= width <= 0x7fff,
            0 <= height <= 0x7fff,
    ;
}

/// The cell a (character, color) pair resolves to against a default color:
/// the pair's missing channels are taken from the default. The default is
/// meant to be fully specified; a missing channel of a partial default is
/// papered over with an arbitrary color rather than made an error.
pub open spec fn resolve_cell(ch: char, color: ColorPair, def: ColorPair) -> Cell {
    let full = color.spec_compose(def);
    Cell {
        ch,
        fg: match full.fg {
            Some(c) => c,
            None => Color::DarkWhite,
        },
        bg: match full.bg {
            Some(c) => c,
            None => Color::DarkBlack,
        },
    }
}

/// Length of the leading run of a stream that carries no newline: the index
/// of the first newline character, or the stream's length if it has none.
pub open spec fn line_len(s: Seq<(char, ColorPair)>) -> int
    decreases s.len(),
{
    if s.len() == 0 {
        0
    } else if s[0].0 == '\n' {
        0
    } else {
        1 + line_len(s.skip(1))
    }
}

/// What `line_len` is: the bound, that no newline stands before it, and that
/// a newline stands exactly there when the stream has one.
pub proof fn lemma_line_len(s: Seq<(char, ColorPair)>)
    ensures
        0 <= line_len(s) <= s.len(),
        forall|i: int| 0 <= i < line_len(s) ==> (#[trigger] s[i]).0 != '\n',
        line_len(s) < s.len() ==> s[line_len(s)].0 == '\n',
    decreases s.len(),
{
    if s.len() == 0 {
    } else if s[0].0 == '\n' {
    } else {
        lemma_line_len(s.skip(1));
        assert forall|i: int| 0 <= i < line_len(s) implies (#[trigger] s[i]).0 != '\n' by {
            if i > 0 {
                assert(s.skip(1)[i - 1] == s[i]);
            }
        }
        if line_len(s) < s.len() {
            assert(s.skip(1)[line_len(s) - 1] == s[line_len(s)]);
        }
    }
}

/// A stream whose first `k` elements carry no newline has `line_len` at
/// least `k`.
pub proof fn lemma_line_len_at_least(s: Seq<(char, ColorPair)>, k: int)
    requires
        0 <= k <= s.len(),
        forall|i: int| 0 <= i < k ==> (#[trigger] s[i]).0 != '\n',
    ensures
        line_len(s) >= k,
{
    lemma_line_len(s);
    if line_len(s) < k {
        assert(s[line_len(s)].0 == '\n');
    }
}

/// The grid after writing the resolved `part` onto row `y` starting at
/// column `col`; every other cell keeps its value. Meaningful when the run
/// lies inside the row: `0 <= col` and `col + part.len() <= width`.
pub open spec fn row_write(
    cells: Seq<Cell>,
    width: int,
    y: int,
    col: int,
    part: Seq<(char, ColorPair)>,
    def: ColorPair,
) -> Seq<Cell> {
    Seq::new(
        cells.len(),
        |i: int|
            if grid_index(width, col, y) <= i < grid_index(width, col, y) + part.len() {
                resolve_cell(
                    part[i - grid_index(width, col, y)].0,
                    part[i - grid_index(width, col, y)].1,
                    def,
                )
            } else {
                cells[i]
            },
    )
}

/// The grid after one `print_at(x, y, line)` call on a `width` by `height`
/// grid with default color `def`:
/// a row outside `[0, height)` leaves the grid unchanged; a negative `x`
/// skips the first `-x` elements of the stream and starts at column 0; the
/// remaining elements are resolved against `def` and written at increasing
/// columns, stopping at the first newline (consumed, never drawn), at the
/// stream's end, or at the row's last column, whichever comes first.
pub open spec fn print_at_spec(
    cells: Seq<Cell>,
    width: int,
    height: int,
    def: ColorPair,
    x: int,
    y: int,
    line: Seq<(char, ColorPair)>,
) -> Seq<Cell> {
    if y < 0 || y >= height {
        cells
    } else {
        let skip = if x < 0 {
            -x
        } else {
            0
        };
        let col = if x < 0 {
            0
        } else {
            x
        };
        let visible = if skip >= line.len() {
            Seq::<(char, ColorPair)>::empty()
        } else {
            line.skip(skip)
        };
        let avail = if col >= width {
            0
        } else {
            width - col
        };
        let n = if line_len(visible) <= avail {
            line_len(visible)
        } else {
            avail
        };
        row_write(cells, width, y, col, visible.take(n), def)
    }
}

/// Pairs a text with its per-character color stream, truncating at the
/// shorter of the two: once the color stream is exhausted, no further
/// characters are drawn even if text remains.
pub open spec fn zip_colors(s: Seq<char>, colors: Seq<ColorPair>) -> Seq<(char, ColorPair)> {
    Seq::new(
        if s.len() <= colors.len() {
            s.len()
        } else {
            colors.len()
        },
        |i: int| (s[i], colors[i]),
    )
}

/// The grid and follow-on cursor position after a buffered multi-line write
/// of the stream `pairs` starting at column `col` of row `row`.
/// Each row takes up to `width - col` elements, stopping at a newline, which
/// is consumed but not drawn; the next row starts at column 0; rows past the
/// last are never drawn, the excess stream is dropped. `cur` carries the
/// position following the last element drawn so far; it is returned
/// unchanged when nothing more is drawn, and a row that draws nothing (its
/// first element is a newline) still moves it to that row's start.
pub open spec fn write_spec(
    cells: Seq<Cell>,
    width: int,
    height: int,
    def: ColorPair,
    pairs: Seq<(char, ColorPair)>,
    col: int,
    row: int,
    cur: (int, int),
) -> (Seq<Cell>, (int, int))
    decreases height - row,
{
    if row < 0 || row >= height || pairs.len() == 0 {
        (cells, cur)
    } else {
        let avail = if 0 <= col < width {
            width - col
        } else {
            0
        };
        let window = if avail <= pairs.len() {
            avail
        } else {
            pairs.len() as int
        };
        let rendered = line_len(pairs.take(window));
        let consumed = if rendered < window {
            rendered + 1
        } else {
            rendered
        };
        let cells2 = row_write(cells, width, row, col, pairs.take(rendered), def);
        write_spec(
            cells2,
            width,
            height,
            def,
            pairs.skip(consumed),
            0,
            row + 1,
            (col + rendered, row),
        )
    }
}

/// The grid and follow-on cursor position a buffered multi-line write leaves
/// behind when it starts at the given cursor position.
pub open spec fn write_outcome(
    cells: Seq<Cell>,
    width: int,
    height: int,
    def: ColorPair,
    pairs: Seq<(char, ColorPair)>,
    cursor: (int, int),
) -> (Seq<Cell>, (int, int)) {
    write_spec(cells, width, height, def, pairs, cursor.0, cursor.1, cursor)
}

/// Law: a stream without newlines written at a column `x` inside the row
/// draws exactly the first `min(len, width - x)` elements there — at
/// `x = width - 3` that is `min(len, 3)` — and touches no other cell.
pub proof fn lemma_print_at_clip_right(
    cells: Seq<Cell>,
    width: int,
    height: int,
    def: ColorPair,
    x: int,
    y: int,
    line: Seq<(char, ColorPair)>,
)
    requires
        cells.len() == width * height,
        0 <= y < height,
        0 <= x <= width,
        forall|i: int| 0 <= i < line.len() ==> (#[trigger] line[i]).0 != '\n',
    ensures
        ({
            let r = print_at_spec(cells, width, height, def, x, y, line);
            let n = if line.len() <= width - x {
                line.len() as int
            } else {
                width - x
            };
            &&& r.len() == cells.len()
            &&& (forall|j: int|
                0 <= j < n ==> #[trigger] r[grid_index(width, x, y) + j] == resolve_cell(
                    line[j].0,
                    line[j].1,
                    def,
                ))
            &&& (forall|i: int|
                0 <= i < cells.len() && !(grid_index(width, x, y) <= i < grid_index(width, x, y)
                    + n) ==> #[trigger] r[i] == cells[i])
        }),
{
    let visible = if 0 >= line.len() {
        Seq::<(char, ColorPair)>::empty()
    } else {
        line.skip(0)
    };
    assert(visible =~= line);
    lemma_line_len(line);
    lemma_line_len_at_least(line, line.len() as int);
    let avail = if x >= width {
        0
    } else {
        width - x
    };
    let n = if line_len(visible) <= avail {
        line_len(visible)
    } else {
        avail
    };
    let r = print_at_spec(cells, width, height, def, x, y, line);
    assert(r == row_write(cells, width, y, x, visible.take(n), def));
    assert forall|j: int| 0 <= j < n implies #[trigger] r[grid_index(width, x, y) + j]
        == resolve_cell(line[j].0, line[j].1, def) by {
        lemma_grid_index_in_range(width, height, x + j, y);
        assert(visible.take(n)[j] == line[j]);
    }
}

/// Law: written at a negative column `x`, a stream has its first `-x`
/// elements skipped; the rest is drawn from column 0 on, clipped to the row.
pub proof fn lemma_print_at_clip_left(
    cells: Seq<Cell>,
    width: int,
    height: int,
    def: ColorPair,
    x: int,
    y: int,
    line: Seq<(char, ColorPair)>,
)
    requires
        cells.len() == width * height,
        0 <= y < height,
        0 < width,
        x < 0,
        -x < line.len(),
        forall|i: int| 0 <= i < line.len() ==> (#[trigger] line[i]).0 != '\n',
    ensures
        ({
            let r = print_at_spec(cells, width, height, def, x, y, line);
            let n = if line.len() + x <= width {
                line.len() + x
            } else {
                width
            };
            &&& r.len() == cells.len()
            &&& (forall|j: int|
                0 <= j < n ==> #[trigger] r[grid_index(width, 0, y) + j] == resolve_cell(
                    line[j - x].0,
                    line[j - x].1,
                    def,
                ))
            &&& (forall|i: int|
                0 <= i < cells.len() && !(grid_index(width, 0, y) <= i < grid_index(width, 0, y)
                    + n) ==> #[trigger] r[i] == cells[i])
        }),
{
    let visible = line.skip(-x);
    assert forall|i: int| 0 <= i < visible.len() implies (#[trigger] visible[i]).0 != '\n' by {
        assert(visible[i] == line[i + -x]);
    }
    lemma_line_len_at_least(visible, visible.len() as int);
    lemma_line_len(visible);
    let n = if line.len() + x <= width {
        line.len() + x
    } else {
        width
    };
    let r = print_at_spec(cells, width, height, def, x, y, line);
    assert(r == row_write(cells, width, y, 0, visible.take(n), def));
    assert forall|j: int| 0 <= j < n implies #[trigger] r[grid_index(width, 0, y) + j]
        == resolve_cell(line[j - x].0, line[j - x].1, def) by {
        lemma_grid_index_in_range(width, height, j, y);
        assert(visible.take(n)[j] == visible[j]);
        assert(visible[j] == line[j + -x]);
    }
}

/// Law: a stream whose element at index `k` is a newline draws at most its
/// first `k` elements, whatever stands after the newline and however long
/// the stream is; every cell outside that span keeps its value.
pub proof fn lemma_print_at_newline(
    cells: Seq<Cell>,
    width: int,
    height: int,
    def: ColorPair,
    x: int,
    y: int,
    line: Seq<(char, ColorPair)>,
    k: int,
)
    requires
        0 <= x,
        0 <= k < line.len(),
        line[k].0 == '\n',
    ensures
        ({
            let r = print_at_spec(cells, width, height, def, x, y, line);
            &&& r.len() == cells.len()
            &&& (forall|i: int|
                0 <= i < cells.len() && !(grid_index(width, x, y) <= i < grid_index(width, x, y)
                    + k) ==> #[trigger] r[i] == cells[i])
        }),
{
    if 0 <= y < height {
        let visible = if 0 >= line.len() {
            Seq::<(char, ColorPair)>::empty()
        } else {
            line.skip(0)
        };
        assert(visible =~= line);
        lemma_line_len(line);
        if line_len(line) > k {
            assert(line[k].0 != '\n');
        }
        let avail = if x >= width {
            0
        } else {
            width - x
        };
        let n = if line_len(visible) <= avail {
            line_len(visible)
        } else {
            avail
        };
        let r = print_at_spec(cells, width, height, def, x, y, line);
        assert(r == row_write(cells, width, y, x, visible.take(n), def));
        assert(n <= k);
        assert(visible.take(n).len() == n);
    }
}

/// Law: `print_at` on a row outside `[0, height)` is a no-op; the grid is
/// returned unchanged.
pub proof fn lemma_print_at_row_out_of_range(
    cells: Seq<Cell>,
    width: int,
    height: int,
    def: ColorPair,
    x: int,
    y: int,
    line: Seq<(char, ColorPair)>,
)
    requires
        y < 0 || y >= height,
    ensures
        print_at_spec(cells, width, height, def, x, y, line) == cells,
{
}

} // verus!
