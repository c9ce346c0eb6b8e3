//! The draw protocol: an element renders itself into a region of a buffer
//! and reports the region it used.
use vstd::prelude::*;
use crate::buffer::{cell_set, edge_room, run_len, set_at, write_run, Buffer, Cell, CellView};
use crate::unicode::graphemes_of;
use crate::style::Style;
use crate::geometry::{min_int, sat_add16};
use crate::rect::Rect;
use crate::text::{text_width, Span};

pub mod line;
pub mod borders;
pub mod block;
pub mod list;
pub mod label;
pub mod paragraph;
pub mod prompt;

verus! {

/// An element that is drawn once, consuming itself.
pub trait Draw: Sized {
    /// The element is in a state that can be drawn.
    spec fn ready(&self) -> bool;

    /// The region that drawing `self` into `rect` uses.
    spec fn area(&self, rect: Rect) -> Rect;

    /// The cells of a `width` x `height` grid after drawing `self` into `rect`.
    spec fn drawn(&self, cells: Seq<CellView>, width: int, height: int, rect: Rect) -> Seq<CellView>;

    /// Renders into `buf` inside `rect` and returns the region used.
    fn draw(self, buf: &mut Buffer, rect: Rect) -> (r: Rect)
        requires
            self.ready(),
            old(buf).wf(),
        ensures
            final(buf).wf(),
            final(buf).width == old(buf).width,
            final(buf).height == old(buf).height,
            r == self.area(rect),
            final(buf)@ == self.drawn(old(buf)@, old(buf).width as int, old(buf).height as int, rect),
    ;
}

/// An element that is drawn by reference and can be drawn again.
pub trait RefDraw {
    /// The element is in a state that can be drawn.
    spec fn ready(&self) -> bool;

    /// The region that drawing `self` into `rect` uses.
    spec fn area(&self, rect: Rect) -> Rect;

    /// The cells of a `width` x `height` grid after drawing `self` into `rect`.
    spec fn drawn(&self, cells: Seq<CellView>, width: int, height: int, rect: Rect) -> Seq<CellView>;

    /// Renders into `buf` inside `rect` and returns the region used.
    fn draw(&self, buf: &mut Buffer, rect: Rect) -> (r: Rect)
        requires
            self.ready(),
            old(buf).wf(),
        ensures
            final(buf).wf(),
            final(buf).width == old(buf).width,
            final(buf).height == old(buf).height,
            r == self.area(rect),
            final(buf)@ == self.drawn(old(buf)@, old(buf).width as int, old(buf).height as int, rect),
    ;
}

/// An element that draws nothing and uses the whole region
#[derive(Debug, Clone, Copy, PartialEq, Eq)]
pub struct Dummy;

impl Draw for Dummy {
    open spec fn ready(&self) -> bool {
        true
    }

    open spec fn drawn(&self, cells: Seq<CellView>, width: int, height: int, rect: Rect) -> Seq<CellView> {
        cells
    }

    open spec fn area(&self, rect: Rect) -> Rect {
        rect
    }

    fn draw(self, buf: &mut Buffer, rect: Rect) -> (r: Rect) {
        rect
    }
}

/// Whether column `x` of row `y` lies in `r`.
pub open spec fn in_rect(r: Rect, x: int, y: int) -> bool {
    r.x <= x < r.x + r.width && r.y <= y < r.y + r.height
}

/// Whether cell `(x, y)` of region `r` comes before row `rows`, column
/// `cols` (row by row, relative to the region's corner).
pub open spec fn before_in(r: Rect, x: int, y: int, rows: int, cols: int) -> bool {
    in_rect(r, x, y) && (y - r.y < rows || (y - r.y == rows && x - r.x < cols))
}

/// The cells of a `width`-wide grid after writing, into each cell of `r`
/// that comes before row `rows`, column `cols`, what `paint` gives for its
/// position in `r` (its glyph, if any, and a style to merge).
pub open spec fn painted_upto(
    cells: Seq<CellView>,
    width: int,
    r: Rect,
    paint: spec_fn(int, int) -> CellView,
    rows: int,
    cols: int,
) -> Seq<CellView> {
    Seq::new(
        cells.len(),
        |i: int|
            if before_in(r, i % width, i / width, rows, cols) {
                cell_set(cells[i], paint(i % width - r.x, i / width - r.y).0, paint(i % width - r.x, i / width - r.y).1)
            } else {
                cells[i]
            },
    )
}

/// The cells of a `width`-wide grid after writing, into every cell of `r`
/// that lies in the grid, what `paint` gives for its position in `r`.
pub open spec fn painted(
    cells: Seq<CellView>,
    width: int,
    r: Rect,
    paint: spec_fn(int, int) -> CellView,
) -> Seq<CellView> {
    Seq::new(
        cells.len(),
        |i: int|
            if in_rect(r, i % width, i / width) {
                cell_set(cells[i], paint(i % width - r.x, i / width - r.y).0, paint(i % width - r.x, i / width - r.y).1)
            } else {
                cells[i]
            },
    )
}

/// Index `i` of a grid `width` wide is column `i % width` of row `i / width`,
/// and a column and row in the grid give back that index.
pub proof fn lemma_grid_cell(width: int, height: int, i: int, x: int, y: int)
    requires
        0 < width,
        0 <= i < width * height,
        0 <= x < width,
        0 <= y,
    ensures
        0 <= i % width < width,
        0 <= i / width < height,
        (i % width == x && i / width == y) <==> i == x + y * width,
{
    vstd::arithmetic::div_mod::lemma_fundamental_div_mod(i, width);
    vstd::arithmetic::div_mod::lemma_mod_pos_bound(i, width);
    assert(0 <= i / width < height) by (nonlinear_arith)
        requires
            0 < width,
            0 <= i < width * height,
            i == width * (i / width) + i % width,
            0 <= i % width < width,
    ;
    if i == x + y * width {
        vstd::arithmetic::div_mod::lemma_fundamental_div_mod_converse(i, width, y, x);
    }
    if i % width == x && i / width == y {
        assert(i == x + y * width) by (nonlinear_arith)
            requires
                i == width * (i / width) + i % width,
                i % width == x,
                i / width == y,
        ;
    }
}

/// Writing one cell of a region, the next in row order, extends the filled part.
proof fn lemma_paint_step(
    cells: Seq<CellView>,
    old_cells: Seq<CellView>,
    width: int,
    height: int,
    r: Rect,
    paint: spec_fn(int, int) -> CellView,
    row: int,
    col: int,
)
    requires
        cells == painted_upto(old_cells, width, r, paint, row, col),
        0 <= width <= 65535,
        0 <= height <= 65535,
        old_cells.len() == width * height,
        0 <= row < r.height,
        0 <= col < r.width,
    ensures
        set_at(
            cells,
            width,
            height,
            (sat_add16(r.x as int, col) as u16, sat_add16(r.y as int, row) as u16),
            paint(col, row).0,
            paint(col, row).1,
        ) =~= painted_upto(old_cells, width, r, paint, row, col + 1),
{
    let px = sat_add16(r.x as int, col);
    let py = sat_add16(r.y as int, row);
    let glyph = paint(col, row).0;
    let style = paint(col, row).1;
    let next = painted_upto(old_cells, width, r, paint, row, col + 1);
    let out = set_at(cells, width, height, (px as u16, py as u16), glyph, style);
    assert(cells.len() == old_cells.len());
    if width > 0 {
        if px < width && py < height {
            assert(px == r.x + col);
            assert(py == r.y + row);
            let j = px + py * width;
            assert(0 <= j < width * height) by (nonlinear_arith)
                requires
                    0 <= px < width,
                    0 <= py < height,
                    j == px + py * width,
            ;
            assert(out == cells.update(j, cell_set(cells[j], glyph, style)));
            assert forall|i: int| 0 <= i < old_cells.len() implies #[trigger] out[i] == next[i] by {
                lemma_grid_cell(width, height, i, px, py);
                lemma_grid_cell(width, height, i, i % width, i / width);
                if i == j {
                    assert(i % width == px && i / width == py);
                    assert(!before_in(r, i % width, i / width, row, col));
                    assert(before_in(r, i % width, i / width, row, col + 1));
                } else {
                    assert(!(i % width == px && i / width == py));
                }
            }
        } else {
            assert(out == cells);
            assert forall|i: int| 0 <= i < old_cells.len() implies #[trigger] out[i] == next[i] by {
                lemma_grid_cell(width, height, i, i % width, i / width);
                assert(!(i % width == r.x + col && i / width == r.y + row));
            }
        }
    } else {
        assert(old_cells.len() == 0);
    }
}

/// A run of writes on row `pos.1` changes no cell outside columns
/// `pos.0..pos.0 + k` of that row.
pub proof fn lemma_write_run_frame(
    cells: Seq<CellView>,
    width: int,
    height: int,
    pos: (u16, u16),
    gs: Seq<Seq<char>>,
    style: Style,
    k: int,
    i: int,
)
    requires
        0 < width <= 65535,
        0 <= height <= 65535,
        cells.len() == width * height,
        0 <= i < cells.len(),
        !(i / width == pos.1 && pos.0 <= i % width < pos.0 + k),
    ensures
        write_run(cells, width, height, pos, gs, style, k).len() == cells.len(),
        write_run(cells, width, height, pos, gs, style, k)[i] == cells[i],
    decreases k,
{
    if k > 0 {
        lemma_write_run_frame(cells, width, height, pos, gs, style, k - 1, i);
        let prev = write_run(cells, width, height, pos, gs, style, k - 1);
        let px = sat_add16(pos.0 as int, k - 1);
        lemma_grid_cell(width, height, i, i % width, i / width);
        if px < width && pos.1 < height {
            lemma_grid_cell(width, height, i, px, pos.1 as int);
            assert(px == pos.0 + k - 1);
        }
    }
}

/// Fills a region with copies of a cell
#[derive(Debug, Clone, PartialEq, Eq)]
pub struct Clear {
    pub cell: Cell,
}

impl Clear {
    pub fn new(cell: Cell) -> (r: Self)
        ensures
            r.cell == cell,
    {
        Clear { cell }
    }

    /// Fills with blank cells
    pub fn clear() -> (r: Self)
        ensures
            r.cell@ == (Some(seq![' ']), crate::style::Style::empty_spec()),
            r.cell.wf(),
    {
        Clear::new(Cell::clear())
    }
}

impl Clear {
    /// Writes the cell's glyph (if any) and merges its style into every
    /// cell of `rect` that lies in the buffer.
    pub fn fill_region(&self, buf: &mut Buffer, rect: Rect)
        requires
            old(buf).wf(),
        ensures
            final(buf).wf(),
            final(buf).width == old(buf).width,
            final(buf).height == old(buf).height,
            final(buf)@ == painted(old(buf)@, old(buf).width as int, rect, |c: int, r: int| self.cell@),
    {
        let ghost w = buf.width as int;
        let ghost h = buf.height as int;
        let ghost start = buf@;
        let ghost g = self.cell@.0;
        let ghost st = self.cell@.1;
        let ghost paint = |c: int, r: int| self.cell@;
        assert(start =~= painted_upto(start, w, rect, paint, 0, 0));
        let mut y: u16 = 0;
        while y < rect.height
            invariant
                buf.wf(),
                buf.width == w,
                buf.height == h,
                start.len() == w * h,
                g == self.cell@.0,
                st == self.cell@.1,
                paint == (|c: int, r: int| self.cell@),
                y <= rect.height,
                buf@ == painted_upto(start, w, rect, paint, y as int, 0),
            decreases rect.height - y,
        {
            let mut x: u16 = 0;
            while x < rect.width
                invariant
                    buf.wf(),
                    buf.width == w,
                    buf.height == h,
                    start.len() == w * h,
                    g == self.cell@.0,
                    st == self.cell@.1,
                    paint == (|c: int, r: int| self.cell@),
                    y < rect.height,
                    x <= rect.width,
                    buf@ == painted_upto(start, w, rect, paint, y as int, x as int),
                decreases rect.width - x,
            {
                let c = self.cell.copy_of();
                let px = rect.x.saturating_add(x);
                let py = rect.y.saturating_add(y);
                assert(px == sat_add16(rect.x as int, x as int) as u16);
                assert(py == sat_add16(rect.y as int, y as int) as u16);
                proof {
                    lemma_paint_step(buf@, start, w, h, rect, paint, y as int, x as int);
                }
                let ghost before = buf@;
                buf.set_cell((px, py), c);
                assert(buf@ == set_at(before, w, h, (px, py), g, st));
                x = x + 1;
            }
            assert(painted_upto(start, w, rect, paint, y as int, x as int) =~= painted_upto(
                start,
                w,
                rect,
                paint,
                y + 1,
                0,
            ));
            y = y + 1;
        }
        assert(painted_upto(start, w, rect, paint, y as int, 0) =~= painted(start, w, rect, paint));
    }
}

impl Draw for Clear {
    open spec fn ready(&self) -> bool {
        true
    }

    open spec fn drawn(&self, cells: Seq<CellView>, width: int, height: int, rect: Rect) -> Seq<CellView> {
        painted(cells, width, rect, |c: int, r: int| self.cell@)
    }

    open spec fn area(&self, rect: Rect) -> Rect {
        rect
    }

    /// Fills `rect` with the cell; see `fill_region`.
    fn draw(self, buf: &mut Buffer, rect: Rect) -> (r: Rect) {
        self.fill_region(buf, rect);
        rect
    }
}

/// The region that a buffer copied into `rect` covers: the overlap of the
/// two sizes, at `rect`'s corner.
pub open spec fn copy_region(src: &Buffer, rect: Rect) -> Rect {
    Rect {
        width: min_int(src.width as int, rect.width as int) as u16,
        height: min_int(src.height as int, rect.height as int) as u16,
        ..rect
    }
}

impl Buffer {
    /// Copies this buffer's cells into `buf` at `rect`, clipped to the
    /// overlap of the two sizes: each copied cell writes its glyph (if any)
    /// and merges its style. Returns the region covered.
    pub fn copy_into(&self, buf: &mut Buffer, rect: Rect) -> (r: Rect)
        requires
            self.wf(),
            old(buf).wf(),
        ensures
            final(buf).wf(),
            final(buf).width == old(buf).width,
            final(buf).height == old(buf).height,
            r == copy_region(self, rect),
            final(buf)@ == painted(
                old(buf)@,
                old(buf).width as int,
                r,
                |c: int, row: int| self@[c + row * self.width],
            ),
    {
        let region = Rect {
            width: if self.width < rect.width { self.width } else { rect.width },
            height: if self.height < rect.height { self.height } else { rect.height },
            ..rect
        };
        let ghost w = buf.width as int;
        let ghost h = buf.height as int;
        let ghost start = buf@;
        let ghost paint = |c: int, row: int| self@[c + row * self.width];
        assert(start =~= painted_upto(start, w, region, paint, 0, 0));
        let mut y: u16 = 0;
        while y < region.height
            invariant
                buf.wf(),
                self.wf(),
                buf.width == w,
                buf.height == h,
                start.len() == w * h,
                region.width <= self.width,
                region.height <= self.height,
                paint == (|c: int, row: int| self@[c + row * self.width]),
                y <= region.height,
                buf@ == painted_upto(start, w, region, paint, y as int, 0),
            decreases region.height - y,
        {
            let mut x: u16 = 0;
            while x < region.width
                invariant
                    buf.wf(),
                    self.wf(),
                    buf.width == w,
                    buf.height == h,
                    start.len() == w * h,
                    region.width <= self.width,
                    region.height <= self.height,
                    paint == (|c: int, row: int| self@[c + row * self.width]),
                    y < region.height,
                    x <= region.width,
                    buf@ == painted_upto(start, w, region, paint, y as int, x as int),
                decreases region.width - x,
            {
                let px = region.x.saturating_add(x);
                let py = region.y.saturating_add(y);
                assert(px == sat_add16(region.x as int, x as int) as u16);
                assert(py == sat_add16(region.y as int, y as int) as u16);
                match self.get((x, y)) {
                    Some(c) => {
                        let copy = c.copy_of();
                        assert(copy@ == paint(x as int, y as int));
                        proof {
                            lemma_paint_step(buf@, start, w, h, region, paint, y as int, x as int);
                        }
                        let ghost before = buf@;
                        buf.set_cell((px, py), copy);
                        assert(buf@ == set_at(before, w, h, (px, py), copy@.0, copy@.1));
                    },
                    None => {},
                }
                x = x + 1;
            }
            assert(painted_upto(start, w, region, paint, y as int, x as int) =~= painted_upto(
                start,
                w,
                region,
                paint,
                y + 1,
                0,
            ));
            y = y + 1;
        }
        assert(painted_upto(start, w, region, paint, y as int, 0) =~= painted(start, w, region, paint));
        region
    }
}

impl RefDraw for Buffer {
    open spec fn ready(&self) -> bool {
        self.wf()
    }

    open spec fn drawn(&self, cells: Seq<CellView>, width: int, height: int, rect: Rect) -> Seq<CellView> {
        painted(cells, width, copy_region(self, rect), |c: int, row: int| self@[c + row * self.width])
    }

    open spec fn area(&self, rect: Rect) -> Rect {
        copy_region(self, rect)
    }

    /// Copies this buffer into `buf` at `rect`; see `copy_into`.
    fn draw(&self, buf: &mut Buffer, rect: Rect) -> (r: Rect) {
        self.copy_into(buf, rect)
    }
}

impl Draw for Span {
    open spec fn ready(&self) -> bool {
        self.wf()
    }

    open spec fn drawn(&self, cells: Seq<CellView>, width: int, height: int, rect: Rect) -> Seq<CellView> {
        let g = graphemes_of(self@.0);
        write_run(
            cells,
            width,
            height,
            (rect.x, rect.y),
            g.skip(0),
            self@.1,
            run_len(g.len() as int, 0, width, edge_room(width, height, (rect.x, rect.y))),
        )
    }

    open spec fn area(&self, rect: Rect) -> Rect {
        Rect { height: 1, ..rect }
    }

    /// Writes the span's graphemes from the region's corner rightwards.
    fn draw(self, buf: &mut Buffer, rect: Rect) -> (r: Rect) {
        buf.set_string(rect.pos(), 0, self.text(), self.style());
        rect.with_height(1)
    }
}

} // verus!
