//! A short piece of styled text: wrapped, clipped and aligned in its region.
use vstd::prelude::*;
use crate::buffer::{edge_room, run_len, write_run, Buffer, CellView};
use crate::clip::{clipped, Clip};
use crate::geometry::{align_offset, max_int, min_int, sat_add16, sat_sub, Align};
use crate::rect::Rect;
use crate::style::Style;
use crate::unicode::{display_width, graphemes_of, str_width};
use crate::wrap::{lemma_wrap_lines_room, room_of, string_views, wrap_lines, Wrap};
use super::{in_rect, lemma_grid_cell, lemma_write_run_frame, Draw};

verus! {

/// Styled text, for titles, buttons and other small pieces
#[derive(Debug, Clone, PartialEq, Eq)]
pub struct Text {
    pub content: String,
    pub style: Style,
    pub align: Align,
    pub clip: Clip,
    pub clip_align: Align,
    pub wrap: Wrap,
}

/// The lines that text shows in a region.
pub open spec fn text_lines(t: Text, rect: Rect) -> Seq<Seq<char>> {
    wrap_lines(t.wrap, t.content@, rect.width as int, Some(rect.height as int), 0, 0)
}

/// The widest of the first `k` lines once clipped, each width cut to `u16`.
pub open spec fn widest(t: Text, lines: Seq<Seq<char>>, max_width: int, k: int) -> int
    decreases k,
{
    if k <= 0 || k > lines.len() {
        0
    } else {
        max_int(
            widest(t, lines, max_width, k - 1),
            display_width(clipped(t.clip, lines[k - 1], max_width, t.clip_align)) as u16 as int,
        )
    }
}

/// Drawing the first `k` lines of a text changes no cell outside `rect`.
proof fn lemma_label_cells_in_rect(
    t: Text,
    cells: Seq<CellView>,
    width: int,
    height: int,
    rect: Rect,
    lines: Seq<Seq<char>>,
    k: int,
    i: int,
)
    requires
        0 < width <= 65535,
        0 <= height <= 65535,
        cells.len() == width * height,
        0 <= i < cells.len(),
        !in_rect(rect, i % width, i / width),
        k <= rect.height,
    ensures
        label_cells(t, cells, width, height, rect, lines, k).len() == cells.len(),
        label_cells(t, cells, width, height, rect, lines, k)[i] == cells[i],
    decreases k,
{
    if 0 < k <= lines.len() {
        lemma_label_cells_in_rect(t, cells, width, height, rect, lines, k - 1, i);
        let prev = label_cells(t, cells, width, height, rect, lines, k - 1);
        let shown = clipped(t.clip, lines[k - 1], rect.width as int, t.clip_align);
        let x = align_offset(t.align, display_width(shown) as int, rect.width as int) as u16;
        let row = min_int(k - 1, u16::MAX as int);
        let pos = (sat_add16(rect.x as int, x as int) as u16, sat_add16(rect.y as int, row) as u16);
        let n = run_len(
            graphemes_of(shown).len() as int,
            0,
            sat_sub(rect.width as int, x as int),
            edge_room(width, height, pos),
        );
        lemma_grid_cell(width, height, i, i % width, i / width);
        lemma_write_run_frame(prev, width, height, pos, graphemes_of(shown).skip(0), t.style, n, i);
    }
}

/// Drawing text into `rect` changes no cell outside `rect`.
pub proof fn lemma_text_stays_in_rect(t: Text, cells: Seq<CellView>, width: int, height: int, rect: Rect, i: int)
    requires
        0 < width <= 65535,
        0 <= height <= 65535,
        cells.len() == width * height,
        0 <= i < cells.len(),
        !in_rect(rect, i % width, i / width),
    ensures
        t.drawn(cells, width, height, rect)[i] == cells[i],
{
    lemma_wrap_lines_room(t.wrap, t.content@, rect.width as int, rect.height as int, 0, 0);
    let lines = text_lines(t, rect);
    lemma_label_cells_in_rect(t, cells, width, height, rect, lines, lines.len() as int, i);
}

impl Text {
    /// Text aligned to the start, cut at the end when too wide, not wrapped
    pub fn new(content: &str, style: Style) -> (r: Self)
        ensures
            r.content@ == content@,
            r.style == style,
            r.align == Align::Start,
            r.clip == Clip::Clip,
            r.clip_align == Align::End,
            r.wrap == Wrap::NoWrap,
    {
        Text {
            content: String::from_str(content),
            style,
            align: Align::Start,
            clip: Clip::Clip,
            clip_align: Align::End,
            wrap: Wrap::NoWrap,
        }
    }

    pub fn content(self, content: &str) -> (r: Self)
        ensures
            r.content@ == content@,
            r.style == self.style,
            r.align == self.align,
            r.clip == self.clip,
            r.clip_align == self.clip_align,
            r.wrap == self.wrap,
    {
        Text { content: String::from_str(content), ..self }
    }

    pub fn style(self, style: Style) -> (r: Self)
        ensures
            r == (Text { style, ..self }),
    {
        Text { style, ..self }
    }

    /// Sets the horizontal alignment of each line
    pub fn align(self, align: Align) -> (r: Self)
        ensures
            r == (Text { align, ..self }),
    {
        Text { align, ..self }
    }

    /// Sets what happens to lines that are too wide
    pub fn clip(self, clip: Clip) -> (r: Self)
        ensures
            r == (Text { clip, ..self }),
    {
        Text { clip, ..self }
    }

    /// Sets where lines that are too wide are cut
    pub fn clip_align(self, align: Align) -> (r: Self)
        ensures
            r == (Text { clip_align: align, ..self }),
    {
        Text { clip_align: align, ..self }
    }

    /// Sets the wrapping of the text
    pub fn wrap(self, wrap: Wrap) -> (r: Self)
        ensures
            r == (Text { wrap, ..self }),
    {
        Text { wrap, ..self }
    }
}

/// The cells after writing the first `k` lines of a text, each clipped,
/// aligned and written on its row, never past the rect's right edge.
pub open spec fn label_cells(
    t: Text,
    cells: Seq<CellView>,
    width: int,
    height: int,
    rect: Rect,
    lines: Seq<Seq<char>>,
    k: int,
) -> Seq<CellView>
    decreases k,
{
    if k <= 0 || k > lines.len() {
        cells
    } else {
        let prev = label_cells(t, cells, width, height, rect, lines, k - 1);
        let shown = clipped(t.clip, lines[k - 1], rect.width as int, t.clip_align);
        let x = align_offset(t.align, display_width(shown) as int, rect.width as int) as u16;
        let row = min_int(k - 1, u16::MAX as int);
        write_run(
            prev,
            width,
            height,
            (sat_add16(rect.x as int, x as int) as u16, sat_add16(rect.y as int, row) as u16),
            graphemes_of(shown).skip(0),
            t.style,
            run_len(
                graphemes_of(shown).len() as int,
                0,
                sat_sub(rect.width as int, x as int),
                edge_room(width, height, (sat_add16(rect.x as int, x as int) as u16, sat_add16(rect.y as int, row) as u16)),
            ),
        )
    }
}

impl Text {
    /// Draws the text into `rect`: wrapped to the width (at most one line per
    /// row), each line clipped, aligned and written on its row. Returns the
    /// region used.
    pub fn render(&self, buf: &mut Buffer, rect: Rect) -> (r: Rect)
        requires
            old(buf).wf(),
        ensures
            final(buf).wf(),
            final(buf).width == old(buf).width,
            final(buf).height == old(buf).height,
            r == text_area(*self, rect),
            final(buf)@ == label_cells(
                *self,
                old(buf)@,
                old(buf).width as int,
                old(buf).height as int,
                rect,
                text_lines(*self, rect),
                text_lines(*self, rect).len() as int,
            ),
    {
        let max_width = rect.width as usize;
        let lines = self.wrap.calc(self.content.as_str(), max_width, Some(rect.height as usize), 0, 0);
        let ghost ls = string_views(lines@);
        assert(room_of(Some(rect.height as usize), 0) == Some(rect.height as int));
        let ghost start = buf@;
        let ghost w = buf.width as int;
        let ghost h = buf.height as int;
        let mut width: u16 = 0;
        let mut height: u16 = 0;
        let mut i: usize = 0;
        while i < lines.len()
            invariant
                buf.wf(),
                buf.width == w,
                buf.height == h,
                ls == string_views(lines@),
                ls == text_lines(*self, rect),
                max_width == rect.width,
                i <= lines@.len(),
                width == widest(*self, ls, max_width as int, i as int),
                height == min_int(i as int, u16::MAX as int),
                buf@ == label_cells(*self, start, w, h, rect, ls, i as int),
            decreases lines@.len() - i,
        {
            assert(ls[i as int] == lines@[i as int]@);
            let content = self.clip.calc(lines[i].as_str(), max_width, self.clip_align);
            let line_width = str_width(content.as_str());
            let x = self.align.calc(line_width, max_width) as u16;
            if line_width as u16 > width {
                width = line_width as u16;
            }
            buf.set_clamped_string(
                (rect.x.saturating_add(x), rect.y.saturating_add(height)),
                0,
                content.as_str(),
                self.style,
                rect.width.saturating_sub(x),
            );
            height = height.saturating_add(1);
            i = i + 1;
        }
        if self.align != Align::Start {
            width = rect.width;
        }
        rect.with_width(width).with_height(height)
    }
}

/// The region that text drawn into `rect` uses: as tall as its lines, as
/// wide as the widest clipped line (the whole width unless aligned to the start).
pub open spec fn text_area(t: Text, rect: Rect) -> Rect {
    let lines = text_lines(t, rect);
    Rect {
        width: if t.align == Align::Start {
            widest(t, lines, rect.width as int, lines.len() as int) as u16
        } else {
            rect.width
        },
        height: min_int(lines.len() as int, u16::MAX as int) as u16,
        ..rect
    }
}

impl Draw for Text {
    open spec fn ready(&self) -> bool {
        true
    }

    open spec fn drawn(&self, cells: Seq<CellView>, width: int, height: int, rect: Rect) -> Seq<CellView> {
        label_cells(*self, cells, width, height, rect, text_lines(*self, rect), text_lines(*self, rect).len() as int)
    }

    open spec fn area(&self, rect: Rect) -> Rect {
        text_area(*self, rect)
    }

    /// Draws the text; see `render`.
    fn draw(self, buf: &mut Buffer, rect: Rect) -> (r: Rect) {
        self.render(buf, rect)
    }
}

} // verus!
