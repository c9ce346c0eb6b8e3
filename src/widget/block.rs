//! Borders with a title on the top edge and a footer on the bottom edge.
use vstd::prelude::*;
use crate::buffer::{Buffer, Cell, CellView};
use crate::geometry::Margin;
use crate::rect::{last_of, margined, Rect};
use crate::geometry::{side_index, Side};
use crate::style::{border_glyphs, BorderKind, Style};
use super::borders::{border_cells, Borders};
use super::label::{lemma_text_stays_in_rect, Text};
use super::{in_rect, lemma_grid_cell, Draw};

verus! {

/// Borders with an optional title and footer drawn over them
#[derive(Debug, Clone, PartialEq, Eq)]
pub struct Block<T, F> {
    pub title: Option<T>,
    pub title_margin: u16,
    pub footer: Option<F>,
    pub footer_margin: u16,
    pub kind: BorderKind,
    pub style: Style,
    pub fill: Option<Cell>,
}

impl<T: Draw, F: Draw> Block<T, F> {
    /// A block with a title, single borders and a margin of one around the title
    pub fn new(title: T) -> (r: Self)
        ensures
            r.title == Some(title),
            r.title_margin == 1,
            r.footer is None,
            r.footer_margin == 1,
            r.kind == BorderKind::Single,
            r.style == Style::empty_spec(),
            r.fill is None,
    {
        Block {
            title: Some(title),
            title_margin: 1,
            footer: None,
            footer_margin: 1,
            kind: BorderKind::Single,
            style: Style::empty(),
            fill: None,
        }
    }

    /// A block with neither title nor footer
    pub fn untitled() -> (r: Self)
        ensures
            r.title is None,
            r.title_margin == 1,
            r.footer is None,
            r.footer_margin == 1,
            r.kind == BorderKind::Single,
            r.style == Style::empty_spec(),
            r.fill is None,
    {
        Block {
            title: None,
            title_margin: 1,
            footer: None,
            footer_margin: 1,
            kind: BorderKind::Single,
            style: Style::empty(),
            fill: None,
        }
    }

    /// Sets the title
    pub fn title(self, title: T) -> (r: Self)
        ensures
            r == (Block { title: Some(title), ..self }),
    {
        Block { title: Some(title), ..self }
    }

    /// Sets the horizontal margin around the title
    pub fn title_margin(self, value: u16) -> (r: Self)
        ensures
            r == (Block { title_margin: value, ..self }),
    {
        Block { title_margin: value, ..self }
    }

    /// Sets the footer
    pub fn footer(self, footer: F) -> (r: Self)
        ensures
            r == (Block { footer: Some(footer), ..self }),
    {
        Block { footer: Some(footer), ..self }
    }

    /// Sets the horizontal margin around the footer
    pub fn footer_margin(self, value: u16) -> (r: Self)
        ensures
            r == (Block { footer_margin: value, ..self }),
    {
        Block { footer_margin: value, ..self }
    }

    /// Sets the border kind
    pub fn kind(self, kind: BorderKind) -> (r: Self)
        ensures
            r == (Block { kind, ..self }),
    {
        Block { kind, ..self }
    }

    /// Sets the border style
    pub fn style(self, style: Style) -> (r: Self)
        ensures
            r == (Block { style, ..self }),
    {
        Block { style, ..self }
    }

    /// Sets a cell to fill the inside with
    pub fn fill(self, cell: Cell) -> (r: Self)
        ensures
            r == (Block { fill: Some(cell), ..self }),
    {
        Block { fill: Some(cell), ..self }
    }
}

impl Default for Block<Text, Text> {
    /// A block with neither title nor footer
    fn default() -> (r: Self)
        ensures
            r.title is None,
            r.title_margin == 1,
            r.footer is None,
            r.footer_margin == 1,
            r.kind == BorderKind::Single,
            r.style == Style::empty_spec(),
            r.fill is None,
    {
        Block::untitled()
    }
}

/// The row inside `rect`'s top (or bottom) edge, inset by `margin` on both sides.
pub open spec fn edge_row(rect: Rect, margin: u16, bottom: bool) -> Rect {
    let inner = margined(rect, Margin(margin, 0, margin, 0));
    if bottom {
        Rect { y: last_of(inner.y as int, inner.height as int) as u16, height: 1, ..inner }
    } else {
        Rect { height: 1, ..inner }
    }
}

/// The cells after drawing a block: its borders, then the footer on the inset
/// bottom row (when the rect is taller than one row), then the title on the
/// inset top row.
pub open spec fn block_cells<T: Draw, F: Draw>(
    b: Block<T, F>,
    cells: Seq<CellView>,
    width: int,
    height: int,
    rect: Rect,
) -> Seq<CellView> {
    let framed = border_cells(
        Borders { kind: b.kind, style: b.style, fill: b.fill },
        cells,
        width,
        height,
        rect,
    );
    let footed = match b.footer {
        Some(f) => if rect.height > 1 {
            f.drawn(framed, width, height, edge_row(rect, b.footer_margin, true))
        } else {
            framed
        },
        None => framed,
    };
    match b.title {
        Some(t) => t.drawn(footed, width, height, edge_row(rect, b.title_margin, false)),
        None => footed,
    }
}

/// The border glyph that belongs at `(x, y)` of `rect`'s outline: a corner,
/// the side glyph on the left and right columns, the top glyph on the bottom
/// row; none elsewhere (the top row between the corners holds the title).
pub open spec fn outline_glyph(kind: BorderKind, rect: Rect, x: int, y: int) -> Option<Seq<char>> {
    let x0 = rect.x as int;
    let x1 = rect.x + rect.width - 1;
    let y0 = rect.y as int;
    let y1 = rect.y + rect.height - 1;
    let g = |side: Side| Some(seq![border_glyphs(kind)[side_index(side)]]);
    if x == x0 && y == y0 {
        g(Side::TopLeft)
    } else if x == x1 && y == y0 {
        g(Side::TopRight)
    } else if x == x1 && y == y1 {
        g(Side::BottomRight)
    } else if x == x0 && y == y1 {
        g(Side::BottomLeft)
    } else if (x == x0 || x == x1) && y0 < y < y1 {
        g(Side::Left)
    } else if y == y1 && x0 < x < x1 {
        g(Side::Top)
    } else {
        None
    }
}

/// Drawing a titled block without a footer into a rect that lies in the
/// buffer and is wider and taller than one cell leaves the border glyphs on
/// its four corners, its left and right columns and its bottom row; the
/// title, inset by at least one cell, only covers the top row between the
/// corners.
pub proof fn lemma_block_outline(
    b: Block<Text, Text>,
    cells: Seq<CellView>,
    width: int,
    height: int,
    rect: Rect,
    i: int,
)
    requires
        b.footer is None,
        b.title_margin >= 1,
        rect.width > 1,
        rect.height > 1,
        rect.x + rect.width <= width <= 65535,
        rect.y + rect.height <= height <= 65535,
        cells.len() == width * height,
        0 <= i < cells.len(),
        outline_glyph(b.kind, rect, i % width, i / width) is Some,
    ensures
        b.drawn(cells, width, height, rect)[i].0 == outline_glyph(b.kind, rect, i % width, i / width),
{
    let x = i % width;
    let y = i / width;
    let x0 = rect.x as int;
    let x1 = rect.x + rect.width - 1;
    let y0 = rect.y as int;
    let y1 = rect.y + rect.height - 1;
    lemma_grid_cell(width, height, i, x, y);
    lemma_grid_cell(width, height, i, x0, y0);
    lemma_grid_cell(width, height, i, x1, y0);
    lemma_grid_cell(width, height, i, x1, y1);
    lemma_grid_cell(width, height, i, x0, y1);
    let bd = Borders { kind: b.kind, style: b.style, fill: b.fill };
    let framed = border_cells(bd, cells, width, height, rect);
    let title_rect = edge_row(rect, b.title_margin, false);
    assert(!in_rect(title_rect, x, y));
    let t = b.title;
    if let Some(tt) = t {
        lemma_text_stays_in_rect(tt, framed, width, height, title_rect, i);
    }
    assert(last_of(rect.x as int, rect.width as int) == x1);
    assert(last_of(rect.y as int, rect.height as int) == y1);
}

impl<T: Draw, F: Draw> Draw for Block<T, F> {
    open spec fn ready(&self) -> bool {
        &&& (self.title matches Some(t) ==> t.ready())
        &&& (self.footer matches Some(f) ==> f.ready())
    }

    open spec fn drawn(&self, cells: Seq<CellView>, width: int, height: int, rect: Rect) -> Seq<CellView> {
        block_cells(*self, cells, width, height, rect)
    }

    open spec fn area(&self, rect: Rect) -> Rect {
        rect
    }

    /// Draws the borders, then the footer on the bottom row (when the rect
    /// is taller than one row) and the title on the top row, each inset by
    /// its margin on both sides.
    fn draw(self, buf: &mut Buffer, rect: Rect) -> (r: Rect) {
        let borders = Borders::new(self.kind).style(self.style);
        let rect = match self.fill {
            Some(fill) => borders.fill(fill).draw(buf, rect),
            None => borders.draw(buf, rect),
        };
        if rect.height > 1 {
            if let Some(footer) = self.footer {
                footer.draw(buf, rect.margin(Margin(self.footer_margin, 0, self.footer_margin, 0)).bottom_border());
            }
        }
        if let Some(title) = self.title {
            title.draw(buf, rect.margin(Margin(self.title_margin, 0, self.title_margin, 0)).top_border());
        }
        rect
    }
}

} // verus!
