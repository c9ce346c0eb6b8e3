//! The cell grid that drawing writes into.
use vstd::prelude::*;

use crate::rect::Rect;
use crate::geometry::{min_int, sat_add16, sat_sub};
use crate::style::{merge, Style};
use crate::unicode::{display_width, graphemes, graphemes_of, str_width, views_of};

verus! {

/// What a cell shows: its glyph, if any, and its style.
pub type CellView = (Option<Seq<char>>, Style);

/// Columns that a glyph occupies; a cell without a glyph takes none.
pub open spec fn glyph_width(g: Option<Seq<char>>) -> nat {
    match g {
        Some(s) => display_width(s),
        None => 0,
    }
}

/// A cell after a write: the glyph is replaced when one is given, and the
/// style is merged with the given one.
pub open spec fn cell_set(c: CellView, glyph: Option<Seq<char>>, style: Style) -> CellView {
    (if glyph is Some { glyph } else { c.0 }, merge(c.1, style))
}

/// One slot of the grid: an optional glyph, its style, and the glyph's
/// measured display width.
#[derive(Debug, Clone, PartialEq, Eq)]
pub struct Cell {
    char: Option<String>,
    pub style: Style,
    display_width: usize,
}

impl View for Cell {
    type V = CellView;

    closed spec fn view(&self) -> CellView {
        (
            match self.char {
                Some(s) => Some(s@),
                None => None,
            },
            self.style,
        )
    }
}

fn glyph_of(glyph: Option<&str>) -> (r: (Option<String>, usize))
    ensures
        r.0 matches Some(s) ==> glyph matches Some(g) && s@ == g@,
        r.0 is None <==> glyph is None,
        r.1 == glyph_width(match glyph { Some(g) => Some(g@), None => None }),
{
    match glyph {
        Some(g) => (Some(String::from_str(g)), str_width(g)),
        None => (None, 0),
    }
}

impl Cell {
    /// The width field matches the glyph.
    pub closed spec fn wf(&self) -> bool {
        self.display_width == glyph_width(self@.0)
    }

    pub fn new(char: Option<&str>, style: Style) -> (r: Self)
        ensures
            r.wf(),
            r@ == (match char { Some(g) => Some(g@), None => None }, style),
    {
        let (c, w) = glyph_of(char);
        Cell { char: c, style, display_width: w }
    }

    /// A blank cell: a space in the empty style.
    pub fn clear() -> (r: Self)
        ensures
            r.wf(),
            r@ == (Some(seq![' ']), Style::empty_spec()),
    {
        let r = Cell::new(Some(" "), Style::empty());
        proof {
            reveal_strlit(" ");
        }
        r
    }

    /// A copy of this cell
    pub fn copy_of(&self) -> (r: Self)
        ensures
            r@ == self@,
            r.wf() == self.wf(),
    {
        let c = match &self.char {
            Some(s) => Some(s.clone()),
            None => None,
        };
        Cell { char: c, style: self.style, display_width: self.display_width }
    }

    /// Writes another cell's glyph and merges its style
    pub fn set_cell(&mut self, cell: Cell)
        requires
            old(self).wf(),
        ensures
            final(self).wf(),
            final(self)@ == cell_set(old(self)@, cell@.0, cell@.1),
    {
        match cell.char {
            Some(s) => self.set(Some(s.as_str()), cell.style),
            None => self.set(None, cell.style),
        }
    }

    /// Writes a glyph, if one is given, and merges the style
    pub fn set(&mut self, char: Option<&str>, style: Style)
        requires
            old(self).wf(),
        ensures
            final(self).wf(),
            final(self)@ == cell_set(
                old(self)@,
                match char { Some(g) => Some(g@), None => None },
                style,
            ),
    {
        self.set_char(char);
        self.set_style(style);
    }

    /// Writes a glyph, if one is given, and measures it
    pub fn set_char(&mut self, char: Option<&str>)
        requires
            old(self).wf(),
        ensures
            final(self).wf(),
            final(self)@.1 == old(self)@.1,
            final(self)@.0 == (match char { Some(g) => Some(g@), None => old(self)@.0 }),
    {
        if let Some(g) = char {
            self.display_width = str_width(g);
            self.char = Some(String::from_str(g));
        }
    }

    /// Merges a style onto the cell's style
    pub fn set_style(&mut self, style: Style)
        requires
            old(self).wf(),
        ensures
            final(self).wf(),
            final(self)@ == (old(self)@.0, merge(old(self)@.1, style)),
    {
        self.style = self.style.set(style);
    }

    /// Columns that the glyph occupies
    pub fn display_width(&self) -> (r: usize)
        ensures
            self.wf() ==> r == glyph_width(self@.0),
    {
        self.display_width
    }

    /// The style
    pub fn style(&self) -> (r: Style)
        ensures
            r == self@.1,
    {
        self.style
    }

    /// The glyph, if any
    pub fn char(&self) -> (r: Option<&str>)
        ensures
            match r { Some(g) => self@.0 == Some(g@), None => self@.0 is None },
    {
        match &self.char {
            Some(s) => Some(s.as_str()),
            None => None,
        }
    }
}

/// A style that sets nothing at all, not even the underline kind: merging it
/// changes nothing.
pub open spec fn no_style() -> Style {
    Style {
        fg: None,
        bg: None,
        bold: None,
        italic: None,
        reverse: None,
        underline: None,
        underline_kind: None,
    }
}

/// The cell index of `(x, y)` in a `width` x `height` grid, row-major.
pub open spec fn index_at(width: int, height: int, x: int, y: int) -> Option<int> {
    if x < width && y < height { Some(x + y * width) } else { None }
}

/// The cells after writing `(glyph, style)` at `(x, y)`; nothing changes
/// outside the grid.
pub open spec fn set_at(
    cells: Seq<CellView>,
    width: int,
    height: int,
    pos: (u16, u16),
    glyph: Option<Seq<char>>,
    style: Style,
) -> Seq<CellView> {
    match index_at(width, height, pos.0 as int, pos.1 as int) {
        Some(i) => if i < cells.len() { cells.update(i, cell_set(cells[i], glyph, style)) } else { cells },
        None => cells,
    }
}

/// The cells after writing the first `k` glyphs of `gs`, one per column,
/// from `pos` to the right (the column saturating at the last `u16`).
pub open spec fn write_run(
    cells: Seq<CellView>,
    width: int,
    height: int,
    pos: (u16, u16),
    gs: Seq<Seq<char>>,
    style: Style,
    k: int,
) -> Seq<CellView>
    decreases k,
{
    if k <= 0 {
        cells
    } else {
        set_at(
            write_run(cells, width, height, pos, gs, style, k - 1),
            width,
            height,
            (sat_add16(pos.0 as int, k - 1) as u16, pos.1),
            Some(gs[k - 1]),
            style,
        )
    }
}

/// Columns from `pos` to the right edge of a `width` x `height` grid; none
/// when `pos` lies outside it.
pub open spec fn edge_room(width: int, height: int, pos: (u16, u16)) -> int {
    if pos.1 < height { sat_sub(width, pos.0 as int) } else { 0 }
}

/// Glyphs written by a run: those after the first `offset`, at most
/// `max_width`, and no further than `room` columns (the buffer's edge).
pub open spec fn run_len(count: int, offset: int, max_width: int, room: int) -> int {
    min_int(min_int(sat_sub(count, offset), max_width), room)
}

/// A grid of `width` x `height` cells, stored row by row.
#[derive(Debug, Clone)]
pub struct Buffer {
    pub width: u16,
    pub height: u16,
    pub cells: Vec<Cell>,
}

impl View for Buffer {
    type V = Seq<CellView>;

    open spec fn view(&self) -> Seq<CellView> {
        self.cells@.map_values(|c: Cell| c@)
    }
}

proof fn lemma_index_in_grid(width: int, height: int, x: int, y: int)
    requires
        0 <= x < width,
        0 <= y < height,
    ensures
        0 <= y * width,
        0 <= x + y * width < width * height,
{
    assert(y * width <= (height - 1) * width) by (nonlinear_arith)
        requires
            0 <= y < height,
            width > 0,
    ;
    assert((height - 1) * width + width == width * height) by (nonlinear_arith);
    assert(0 <= y * width) by (nonlinear_arith)
        requires
            0 <= y,
            width > 0,
    ;
}

impl Buffer {
    /// One cell for each position, each with a width matching its glyph.
    pub open spec fn wf(&self) -> bool {
        &&& self.cells@.len() == self.width * self.height
        &&& forall|i: int| 0 <= i < self.cells@.len() ==> (#[trigger] self.cells@[i]).wf()
    }

    pub fn new(width: u16, height: u16, cells: Vec<Cell>) -> (r: Self)
        ensures
            r.width == width,
            r.height == height,
            r.cells == cells,
    {
        Buffer { width, height, cells }
    }

    /// A buffer with every cell a copy of `cell`
    pub fn filled(width: u16, height: u16, cell: &Cell) -> (r: Self)
        requires
            cell.wf(),
        ensures
            r.wf(),
            r.width == width,
            r.height == height,
            forall|i: int| 0 <= i < r@.len() ==> r@[i] == cell@,
    {
        let mut buf = Buffer::new(width, height, Vec::new());
        buf.fill_with(cell);
        buf
    }

    /// A buffer of blank cells
    pub fn empty(width: u16, height: u16) -> (r: Self)
        ensures
            r.wf(),
            r.width == width,
            r.height == height,
            forall|i: int| 0 <= i < r@.len() ==> r@[i] == (Some(seq![' ']), Style::empty_spec()),
    {
        let c = Cell::clear();
        Buffer::filled(width, height, &c)
    }

    /// Replaces the cells with `width * height` copies of `cell`
    pub fn fill_with(&mut self, cell: &Cell)
        requires
            cell.wf(),
        ensures
            final(self).wf(),
            final(self).width == old(self).width,
            final(self).height == old(self).height,
            forall|i: int| 0 <= i < final(self)@.len() ==> final(self)@[i] == cell@,
    {
        assert(self.width as int * self.height as int <= 65535 * 65535) by (nonlinear_arith)
            requires
                self.width <= 65535,
                self.height <= 65535,
        ;
        let n: usize = self.width as usize * self.height as usize;
        let mut cells: Vec<Cell> = Vec::new();
        while cells.len() < n
            invariant
                cells@.len() <= n,
                forall|i: int| 0 <= i < cells@.len() ==> (#[trigger] cells@[i]).wf() && cells@[i]@ == cell@,
                cell.wf(),
            decreases n - cells@.len(),
        {
            cells.push(cell.copy_of());
        }
        self.cells = cells;
    }

    /// Blanks every cell
    pub fn clear(&mut self)
        ensures
            final(self).wf(),
            final(self).width == old(self).width,
            final(self).height == old(self).height,
            forall|i: int| 0 <= i < final(self)@.len() ==> final(self)@[i] == (Some(seq![' ']), Style::empty_spec()),
    {
        let c = Cell::clear();
        self.fill_with(&c);
    }

    /// Sets the size and blanks every cell; nothing is kept
    pub fn resize(&mut self, width: u16, height: u16)
        ensures
            final(self).wf(),
            final(self).width == width,
            final(self).height == height,
            forall|i: int| 0 <= i < final(self)@.len() ==> final(self)@[i] == (Some(seq![' ']), Style::empty_spec()),
    {
        self.width = width;
        self.height = height;
        self.clear();
    }

    /// Writes a glyph (if given) and merges a style at `pos`; returns whether
    /// `pos` lies in the buffer.
    pub fn set(&mut self, pos: (u16, u16), char: Option<&str>, style: Style) -> (r: bool)
        requires
            old(self).wf(),
        ensures
            final(self).wf(),
            final(self).width == old(self).width,
            final(self).height == old(self).height,
            r == index_at(old(self).width as int, old(self).height as int, pos.0 as int, pos.1 as int) is Some,
            final(self)@ == set_at(
                old(self)@,
                old(self).width as int,
                old(self).height as int,
                pos,
                match char { Some(g) => Some(g@), None => None },
                style,
            ),
    {
        match self.index_of(pos) {
            Some(i) => {
                let mut c = self.cells[i].copy_of();
                c.set(char, style);
                self.cells.set(i, c);
                assert(self@ =~= old(self)@.update(i as int, c@));
                true
            },
            None => {
                false
            },
        }
    }

    /// Writes a cell's glyph and merges its style at `pos`
    pub fn set_cell(&mut self, pos: (u16, u16), cell: Cell) -> (r: bool)
        requires
            old(self).wf(),
        ensures
            final(self).wf(),
            final(self).width == old(self).width,
            final(self).height == old(self).height,
            r == index_at(old(self).width as int, old(self).height as int, pos.0 as int, pos.1 as int) is Some,
            final(self)@ == set_at(
                old(self)@,
                old(self).width as int,
                old(self).height as int,
                pos,
                cell@.0,
                cell@.1,
            ),
    {
        match cell.char() {
            Some(g) => self.set(pos, Some(g), cell.style),
            None => self.set(pos, None, cell.style),
        }
    }

    /// Writes a glyph at `pos`, leaving the style
    pub fn set_char(&mut self, pos: (u16, u16), char: Option<&str>) -> (r: bool)
        requires
            old(self).wf(),
        ensures
            final(self).wf(),
            final(self).width == old(self).width,
            final(self).height == old(self).height,
            r == index_at(old(self).width as int, old(self).height as int, pos.0 as int, pos.1 as int) is Some,
            final(self)@ == set_at(
                old(self)@,
                old(self).width as int,
                old(self).height as int,
                pos,
                match char { Some(g) => Some(g@), None => None },
                no_style(),
            ),
    {
        match self.index_of(pos) {
            Some(i) => {
                let mut c = self.cells[i].copy_of();
                c.set_char(char);
                self.cells.set(i, c);
                assert(self@ =~= old(self)@.update(i as int, c@));
                true
            },
            None => false,
        }
    }

    /// Merges a style at `pos`, leaving the glyph
    pub fn set_style(&mut self, pos: (u16, u16), style: Style) -> (r: bool)
        requires
            old(self).wf(),
        ensures
            final(self).wf(),
            final(self).width == old(self).width,
            final(self).height == old(self).height,
            r == index_at(old(self).width as int, old(self).height as int, pos.0 as int, pos.1 as int) is Some,
            final(self)@ == set_at(old(self)@, old(self).width as int, old(self).height as int, pos, None, style),
    {
        self.set(pos, None, style)
    }

    /// The cell at `pos`, if it lies in the buffer
    pub fn get(&self, pos: (u16, u16)) -> (r: Option<&Cell>)
        requires
            self.wf(),
        ensures
            match index_at(self.width as int, self.height as int, pos.0 as int, pos.1 as int) {
                Some(i) => r matches Some(c) && c@ == self@[i] && c.wf(),
                None => r is None,
            },
    {
        match self.index_of(pos) {
            Some(i) => {
                assert(self.cells@[i as int].wf());
                assert(self@[i as int] == self.cells@[i as int]@);
                Some(&self.cells[i])
            },
            None => None,
        }
    }

    /// The cell at `pos` to change in place, if `pos` lies in the buffer.
    /// The rest of the buffer keeps its cells, and the cell changed takes the
    /// place of the old one.
    pub fn get_mut(&mut self, pos: (u16, u16)) -> (r: Option<&mut Cell>)
        requires
            old(self).wf(),
        ensures
            final(self).width == old(self).width,
            final(self).height == old(self).height,
            match index_at(old(self).width as int, old(self).height as int, pos.0 as int, pos.1 as int) {
                Some(i) => r matches Some(c) && *c == old(self).cells@[i]
                    && final(self).cells@ == old(self).cells@.update(i, *final(c)),
                None => r is None && final(self).cells@ == old(self).cells@,
            },
    {
        match self.index_of(pos) {
            Some(i) => Some(&mut self.cells[i]),
            None => None,
        }
    }

    /// Row-major index of `pos`, if it lies in the buffer
    pub fn index_of(&self, pos: (u16, u16)) -> (r: Option<usize>)
        requires
            self.wf(),
        ensures
            r matches Some(i) ==> i < self.cells@.len(),
            match index_at(self.width as int, self.height as int, pos.0 as int, pos.1 as int) {
                Some(i) => r matches Some(j) && j as int == i,
                None => r is None,
            },
    {
        let n = self.cells.len();
        if pos.0 >= self.width || pos.1 >= self.height {
            None
        } else {
            proof {
                lemma_index_in_grid(self.width as int, self.height as int, pos.0 as int, pos.1 as int);
            }
            Some(pos.0 as usize + pos.1 as usize * self.width as usize)
        }
    }

    /// Position `(x, y)` of a cell index, if it lies in the buffer
    pub fn pos_of(&self, index: usize) -> (r: Option<(u16, u16)>)
        requires
            self.wf(),
        ensures
            index < self.cells@.len() ==> r == Some(
                ((index as int % self.width as int) as u16, (index as int / self.width as int) as u16),
            ),
            index >= self.cells@.len() ==> r is None,
            r matches Some(p) ==> index_at(self.width as int, self.height as int, p.0 as int, p.1 as int) == Some(index as int),
            r matches Some(p) ==> p.0 as int == index as int % self.width as int && p.1 as int == index as int / self.width as int,
    {
        if index >= self.cells.len() {
            None
        } else {
            let w = self.width as usize;
            assert(w != 0) by (nonlinear_arith)
                requires
                    index < self.width * self.height,
                    w == self.width,
            ;
            let x = index % w;
            let y = index / w;
            proof {
                let h = self.height as int;
                assert(x < w);
                assert(index == x + y * w) by (nonlinear_arith)
                    requires
                        x == index % w,
                        y == index / w,
                        w > 0,
                ;
                assert(y < h) by (nonlinear_arith)
                    requires
                        index == x + y * w,
                        index < w * h,
                        0 <= x,
                        w > 0,
                ;
            }
            Some((x as u16, y as u16))
        }
    }

    /// Size `(width, height)`
    pub fn size(&self) -> (r: (u16, u16))
        ensures
            r == (self.width, self.height),
    {
        (self.width, self.height)
    }

    /// The rect that the buffer covers, at the origin
    pub fn rect(&self) -> (r: Rect)
        ensures
            r == (Rect { x: 0, y: 0, width: self.width, height: self.height }),
    {
        Rect::new(0, 0, self.width, self.height)
    }
}

impl Buffer {
    /// Writes the graphemes of `string` after the first `offset`, one per
    /// cell from `pos` rightwards, stopping after `max_width` of them or at
    /// the buffer's edge. Returns how many were written.
    pub fn set_clamped_string(
        &mut self,
        pos: (u16, u16),
        offset: u16,
        string: &str,
        style: Style,
        max_width: u16,
    ) -> (r: u16)
        requires
            old(self).wf(),
        ensures
            final(self).wf(),
            final(self).width == old(self).width,
            final(self).height == old(self).height,
            r == run_len(
                graphemes_of(string@).len() as int,
                offset as int,
                max_width as int,
                edge_room(old(self).width as int, old(self).height as int, pos),
            ),
            final(self)@ == write_run(
                old(self)@,
                old(self).width as int,
                old(self).height as int,
                pos,
                graphemes_of(string@).skip(offset as int),
                style,
                r as int,
            ),
    {
        let gs = graphemes(string);
        let ghost all = graphemes_of(string@);
        assert(all.len() == gs@.len());
        let ghost rest = all.skip(offset as int);
        let room: u16 = if pos.1 < self.height { self.width.saturating_sub(pos.0) } else { 0 };
        let mut width: u16 = 0;
        let mut i: usize = offset as usize;
        while i < gs.len() && width < max_width && width < room
            invariant
                self.wf(),
                self.width == old(self).width,
                self.height == old(self).height,
                views_of(gs@) == all,
                rest == all.skip(offset as int),
                i == offset + width,
                width <= max_width,
                room == edge_room(old(self).width as int, old(self).height as int, pos),
                width as int <= run_len(all.len() as int, offset as int, max_width as int, room as int),
                self@ == write_run(
                    old(self)@,
                    old(self).width as int,
                    old(self).height as int,
                    pos,
                    rest,
                    style,
                    width as int,
                ),
            decreases max_width - width,
        {
            assert(rest[width as int] == gs@[i as int]@);
            let x = pos.0.saturating_add(width);
            self.set((x, pos.1), Some(gs[i].as_str()), style);
            width = width + 1;
            i = i + 1;
        }
        width
    }

    /// Writes the graphemes of `string` after the first `offset` from `pos`
    /// rightwards, stopping at the buffer's edge.
    pub fn set_string(&mut self, pos: (u16, u16), offset: u16, string: &str, style: Style) -> (r: u16)
        requires
            old(self).wf(),
        ensures
            final(self).wf(),
            final(self).width == old(self).width,
            final(self).height == old(self).height,
            r == run_len(
                graphemes_of(string@).len() as int,
                offset as int,
                old(self).width as int,
                edge_room(old(self).width as int, old(self).height as int, pos),
            ),
            final(self)@ == write_run(
                old(self)@,
                old(self).width as int,
                old(self).height as int,
                pos,
                graphemes_of(string@).skip(offset as int),
                style,
                r as int,
            ),
    {
        let w = self.width;
        self.set_clamped_string(pos, offset, string, style, w)
    }
}

} // verus!
