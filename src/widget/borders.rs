//! A rectangle outlined with border glyphs.
use vstd::prelude::*;
use crate::buffer::{set_at, Buffer, Cell, CellView};
use crate::geometry::{side_index, Direction, Margin, Side};
use crate::rect::{last_of, margined, Rect};
use crate::style::{border_glyphs, BorderKind, Style};
use super::line::{line_cells, Line};
use super::{painted, Clear, Draw};

verus! {

/// Draws the outline of a rect, optionally filling its inside
#[derive(Debug, Clone, PartialEq, Eq)]
pub struct Borders {
    pub kind: BorderKind,
    pub style: Style,
    pub fill: Option<Cell>,
}

impl Borders {
    pub fn new(kind: BorderKind) -> (r: Self)
        ensures
            r.kind == kind,
            r.style == Style::empty_spec(),
            r.fill is None,
    {
        Borders { kind, style: Style::empty(), fill: None }
    }

    /// Borders of single lines
    pub fn single() -> (r: Self)
        ensures
            r.kind == BorderKind::Single,
            r.style == Style::empty_spec(),
            r.fill is None,
    {
        Borders::new(BorderKind::Single)
    }

    /// Borders of double lines
    pub fn double() -> (r: Self)
        ensures
            r.kind == BorderKind::Double,
            r.style == Style::empty_spec(),
            r.fill is None,
    {
        Borders::new(BorderKind::Double)
    }

    /// Borders with rounded corners
    pub fn rounded() -> (r: Self)
        ensures
            r.kind == BorderKind::Rounded,
            r.style == Style::empty_spec(),
            r.fill is None,
    {
        Borders::new(BorderKind::Rounded)
    }

    /// Borders of thick lines
    pub fn thick() -> (r: Self)
        ensures
            r.kind == BorderKind::Thick,
            r.style == Style::empty_spec(),
            r.fill is None,
    {
        Borders::new(BorderKind::Thick)
    }

    /// Borders of full blocks
    pub fn block() -> (r: Self)
        ensures
            r.kind == BorderKind::Block,
            r.style == Style::empty_spec(),
            r.fill is None,
    {
        Borders::new(BorderKind::Block)
    }

    /// Borders of one's own glyphs, in the order of `Side`
    pub fn custom(chars: [char; 8]) -> (r: Self)
        ensures
            r.kind == BorderKind::Custom(chars),
            r.style == Style::empty_spec(),
            r.fill is None,
    {
        Borders::new(BorderKind::Custom(chars))
    }

    pub fn kind(self, kind: BorderKind) -> (r: Self)
        ensures
            r == (Borders { kind, ..self }),
    {
        Borders { kind, ..self }
    }

    pub fn style(self, style: Style) -> (r: Self)
        ensures
            r == (Borders { style, ..self }),
    {
        Borders { style, ..self }
    }

    /// Sets a cell to fill the inside with
    pub fn fill(self, cell: Cell) -> (r: Self)
        ensures
            r == (Borders { fill: Some(cell), ..self }),
    {
        Borders { fill: Some(cell), ..self }
    }
}

/// A line of the borders' kind and style, without end glyphs.
pub open spec fn border_line(b: Borders, direction: Direction) -> Line {
    Line { kind: b.kind, style: b.style, direction, start: None, end: None }
}

/// The cells after writing the corner glyph of `side` at `pos`.
pub open spec fn corner(b: Borders, cells: Seq<CellView>, width: int, height: int, pos: (u16, u16), side: Side) -> Seq<CellView> {
    set_at(cells, width, height, pos, Some(seq![border_glyphs(b.kind)[side_index(side)]]), b.style)
}

/// The cells after drawing borders into `rect`: the inside filled (if a fill
/// is set); the left column when the rect is taller than one row; the top
/// row when it is wider than one column; and when it is both, the right
/// column, the bottom row and the four corners.
pub open spec fn border_cells(b: Borders, cells: Seq<CellView>, width: int, height: int, rect: Rect) -> Seq<CellView> {
    let filled = match b.fill {
        Some(c) => painted(cells, width, margined(rect, Margin(1, 1, 1, 1)), |x: int, y: int| c@),
        None => cells,
    };
    let ver = border_line(b, Direction::Vertical);
    let hor = border_line(b, Direction::Horizontal);
    let left = if rect.height > 1 {
        line_cells(ver, filled, width, height, Rect { width: 1, ..rect })
    } else {
        filled
    };
    let top = if rect.width > 1 {
        line_cells(hor, left, width, height, Rect { height: 1, ..rect })
    } else {
        left
    };
    if rect.width > 1 && rect.height > 1 {
        let right = line_cells(
            ver,
            top,
            width,
            height,
            Rect { x: last_of(rect.x as int, rect.width as int) as u16, width: 1, ..rect },
        );
        let bottom = line_cells(
            hor,
            right,
            width,
            height,
            Rect { y: last_of(rect.y as int, rect.height as int) as u16, height: 1, ..rect },
        );
        let right_x = last_of(rect.x as int, rect.width as int) as u16;
        let bottom_y = last_of(rect.y as int, rect.height as int) as u16;
        let c1 = corner(b, bottom, width, height, (rect.x, rect.y), Side::TopLeft);
        let c2 = corner(b, c1, width, height, (right_x, rect.y), Side::TopRight);
        let c3 = corner(b, c2, width, height, (right_x, bottom_y), Side::BottomRight);
        corner(b, c3, width, height, (rect.x, bottom_y), Side::BottomLeft)
    } else {
        top
    }
}

impl Borders {
    /// Draws the borders into `rect`; the whole rect is used.
    pub fn render(&self, buf: &mut Buffer, rect: Rect)
        requires
            old(buf).wf(),
        ensures
            final(buf).wf(),
            final(buf).width == old(buf).width,
            final(buf).height == old(buf).height,
            final(buf)@ == border_cells(*self, old(buf)@, old(buf).width as int, old(buf).height as int, rect),
    {
        if let Some(fill) = &self.fill {
            let c = fill.copy_of();
            Clear::new(c).fill_region(buf, rect.margin(Margin(1, 1, 1, 1)));
        }
        let ver_line = Line::vertical(self.kind).style(self.style);
        let hor_line = Line::horizontal(self.kind).style(self.style);
        if rect.height > 1 {
            ver_line.render(buf, rect.left_border());
        }
        if rect.width > 1 {
            hor_line.render(buf, rect.top_border());
        }
        if rect.width > 1 && rect.height > 1 {
            ver_line.render(buf, rect.right_border());
            hor_line.render(buf, rect.bottom_border());
            let tl = self.kind.string_at(Side::TopLeft);
            buf.set(rect.top_left(), Some(tl.as_str()), self.style);
            let tr = self.kind.string_at(Side::TopRight);
            buf.set(rect.top_right(), Some(tr.as_str()), self.style);
            let br = self.kind.string_at(Side::BottomRight);
            buf.set(rect.bottom_right(), Some(br.as_str()), self.style);
            let bl = self.kind.string_at(Side::BottomLeft);
            buf.set(rect.bottom_left(), Some(bl.as_str()), self.style);
        }
    }
}

impl Draw for Borders {
    open spec fn ready(&self) -> bool {
        true
    }

    open spec fn drawn(&self, cells: Seq<CellView>, width: int, height: int, rect: Rect) -> Seq<CellView> {
        border_cells(*self, cells, width, height, rect)
    }

    open spec fn area(&self, rect: Rect) -> Rect {
        rect
    }

    /// Draws the borders; see `render`.
    fn draw(self, buf: &mut Buffer, rect: Rect) -> (r: Rect) {
        self.render(buf, rect);
        rect
    }
}

} // verus!
