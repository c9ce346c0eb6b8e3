//! A straight line of border glyphs.
use vstd::prelude::*;
use crate::buffer::{set_at, Buffer, Cell, CellView};
use crate::geometry::{sat_add16, sat_sub, side_index, Direction, Side};
use crate::rect::Rect;
use crate::style::{border_glyphs, BorderKind, Style};
use crate::unicode::char_to_string;
use super::{painted, Clear, Draw};

verus! {

/// A horizontal or vertical line, with optional glyphs at its two ends
#[derive(Debug, Clone, PartialEq, Eq)]
pub struct Line {
    pub kind: BorderKind,
    pub style: Style,
    pub direction: Direction,
    pub start: Option<char>,
    pub end: Option<char>,
}

impl Line {
    pub fn new(kind: BorderKind, direction: Direction) -> (r: Self)
        ensures
            r.kind == kind,
            r.direction == direction,
            r.style == Style::empty_spec(),
            r.start is None,
            r.end is None,
    {
        Line { kind, style: Style::empty(), direction, start: None, end: None }
    }

    /// A horizontal line
    pub fn horizontal(kind: BorderKind) -> (r: Self)
        ensures
            r.kind == kind,
            r.direction == Direction::Horizontal,
            r.style == Style::empty_spec(),
            r.start is None,
            r.end is None,
    {
        Line::new(kind, Direction::Horizontal)
    }

    /// A vertical line
    pub fn vertical(kind: BorderKind) -> (r: Self)
        ensures
            r.kind == kind,
            r.direction == Direction::Vertical,
            r.style == Style::empty_spec(),
            r.start is None,
            r.end is None,
    {
        Line::new(kind, Direction::Vertical)
    }

    pub fn kind(self, kind: BorderKind) -> (r: Self)
        ensures
            r == (Line { kind, ..self }),
    {
        Line { kind, ..self }
    }

    pub fn style(self, style: Style) -> (r: Self)
        ensures
            r == (Line { style, ..self }),
    {
        Line { style, ..self }
    }

    pub fn direction(self, direction: Direction) -> (r: Self)
        ensures
            r == (Line { direction, ..self }),
    {
        Line { direction, ..self }
    }

    /// Sets the glyph at the left or top end
    pub fn start(self, value: Option<char>) -> (r: Self)
        ensures
            r == (Line { start: value, ..self }),
    {
        Line { start: value, ..self }
    }

    /// Sets the glyph at the right or bottom end
    pub fn end(self, value: Option<char>) -> (r: Self)
        ensures
            r == (Line { end: value, ..self }),
    {
        Line { end: value, ..self }
    }
}

/// The glyph written at an end of a line, if one is set.
pub open spec fn end_glyph(c: Option<char>) -> Option<Seq<char>> {
    match c {
        Some(ch) => Some(seq![ch]),
        None => None,
    }
}

/// The cells after drawing a line into `rect`: the side glyph along the top
/// row (horizontal) or the left column (vertical), then the end glyph at the
/// last cell and the start glyph at the first, each with the line's style
/// merged in.
pub open spec fn line_cells(l: Line, cells: Seq<CellView>, width: int, height: int, rect: Rect) -> Seq<CellView> {
    let horizontal = l.direction == Direction::Horizontal;
    let side = if horizontal { Side::Top } else { Side::Left };
    let glyph = seq![border_glyphs(l.kind)[side_index(side)]];
    let strip = if horizontal { Rect { height: 1, ..rect } } else { Rect { width: 1, ..rect } };
    let body = painted(cells, width, strip, |c: int, r: int| (Some(glyph), l.style));
    let last = if horizontal {
        (sat_add16(rect.x as int, sat_sub(rect.width as int, 1)) as u16, rect.y)
    } else {
        (rect.x, sat_add16(rect.y as int, sat_sub(rect.height as int, 1)) as u16)
    };
    let with_end = if l.end is Some { set_at(body, width, height, last, end_glyph(l.end), l.style) } else { body };
    if l.start is Some {
        set_at(with_end, width, height, (rect.x, rect.y), end_glyph(l.start), l.style)
    } else {
        with_end
    }
}

impl Line {
    /// Draws the line into `rect` and returns the row (horizontal) or
    /// column (vertical) it used.
    pub fn render(&self, buf: &mut Buffer, rect: Rect) -> (r: Rect)
        requires
            old(buf).wf(),
        ensures
            final(buf).wf(),
            final(buf).width == old(buf).width,
            final(buf).height == old(buf).height,
            final(buf)@ == line_cells(*self, old(buf)@, old(buf).width as int, old(buf).height as int, rect),
            r == (match self.direction {
                Direction::Horizontal => Rect { height: 1, ..rect },
                Direction::Vertical => Rect { width: 1, ..rect },
            }),
    {
        let horizontal = match self.direction {
            Direction::Horizontal => true,
            Direction::Vertical => false,
        };
        let side = if horizontal { Side::Top } else { Side::Left };
        let glyph = char_to_string(self.kind.char_at(side));
        let strip = if horizontal { rect.with_height(1) } else { rect.with_width(1) };
        let fill = Clear::new(Cell::new(Some(glyph.as_str()), self.style));
        fill.fill_region(buf, strip);
        let last = if horizontal {
            (rect.x.saturating_add(rect.width.saturating_sub(1)), rect.y)
        } else {
            (rect.x, rect.y.saturating_add(rect.height.saturating_sub(1)))
        };
        if let Some(end) = self.end {
            let g = char_to_string(end);
            buf.set(last, Some(g.as_str()), self.style);
        }
        if let Some(start) = self.start {
            let g = char_to_string(start);
            buf.set((rect.x, rect.y), Some(g.as_str()), self.style);
        }
        proof {
            let paint = |c: int, r: int| (Some(seq![border_glyphs(self.kind)[side_index(side)]]), self.style);
            assert(paint == (|c: int, r: int| fill.cell@));
        }
        strip
    }
}

impl Draw for Line {
    open spec fn ready(&self) -> bool {
        true
    }

    open spec fn drawn(&self, cells: Seq<CellView>, width: int, height: int, rect: Rect) -> Seq<CellView> {
        line_cells(*self, cells, width, height, rect)
    }

    open spec fn area(&self, rect: Rect) -> Rect {
        match self.direction {
            Direction::Horizontal => Rect { height: 1, ..rect },
            Direction::Vertical => Rect { width: 1, ..rect },
        }
    }

    /// Draws the line; see `render`.
    fn draw(self, buf: &mut Buffer, rect: Rect) -> (r: Rect) {
        self.render(buf, rect)
    }
}

} // verus!
