//! Styled spans wrapped into lines, each line aligned and indented.
use vstd::prelude::*;
use crate::buffer::{edge_room, run_len, write_run, Buffer, CellView};
use crate::geometry::{align_offset, min_int, sat_add16, sat_sub, Align};
use crate::rect::Rect;
use crate::style::Style;
use crate::text::{all_wf, flow_width, span_views, text_width, Span, SpanView};
use crate::unicode::graphemes_of;
use crate::wrap::{line_views, room_of, wrap_flow, Wrap};
use super::Draw;

verus! {

/// Text made of styled spans, with wrapping, alignment and indentation
#[derive(Debug, Clone, PartialEq, Eq)]
pub struct Paragraph {
    pub spans: Vec<Span>,
    pub align: Align,
    pub wrap: Wrap,
    /// Indentation of the first line
    pub first_indent: u16,
    /// Indentation of the lines after the first
    pub indent: u16,
}

/// The lines of spans that a paragraph wraps into for a region: one more
/// than the region's rows at most, enough to tell when they do not fit.
pub open spec fn paragraph_lines(p: Paragraph, rect: Rect) -> Seq<Seq<crate::text::SpanView>> {
    wrap_flow(
        p.wrap,
        span_views(p.spans@),
        rect.width as int,
        Some(rect.height + 1),
        p.first_indent as int,
        p.indent as int,
    )
}

/// The lines of `s`, split at each `'\n'` (which belongs to neither side).
pub open spec fn split_lines(s: Seq<char>) -> Seq<Seq<char>>
    decreases s.len(),
{
    if s.len() == 0 {
        seq![Seq::empty()]
    } else {
        let prev = split_lines(s.drop_last());
        if s.last() == '\n' {
            prev.push(Seq::empty())
        } else {
            prev.update(prev.len() - 1, prev.last().push(s.last()))
        }
    }
}

proof fn lemma_split_lines_nonempty(s: Seq<char>)
    ensures
        split_lines(s).len() >= 1,
    decreases s.len(),
{
    if s.len() > 0 {
        lemma_split_lines_nonempty(s.drop_last());
    }
}

impl Paragraph {
    /// A paragraph of spans: aligned to the start, not wrapped, not indented
    pub fn new(spans: Vec<Span>) -> (r: Self)
        ensures
            r.spans@ == spans@,
            r.align == Align::Start,
            r.wrap == Wrap::NoWrap,
            r.first_indent == 0,
            r.indent == 0,
    {
        Paragraph { spans, align: Align::Start, wrap: Wrap::NoWrap, first_indent: 0, indent: 0 }
    }

    /// A paragraph of one span
    pub fn plain(text: &str, style: Style) -> (r: Self)
        ensures
            all_wf(r.spans@),
            span_views(r.spans@) == seq![(text@, style)],
            r.align == Align::Start,
            r.wrap == Wrap::NoWrap,
            r.first_indent == 0,
            r.indent == 0,
    {
        let mut spans: Vec<Span> = Vec::new();
        spans.push(Span::new(text, style));
        assert(span_views(spans@) =~= seq![(text@, style)]);
        Paragraph::new(spans)
    }

    /// One plain paragraph per line of `text`, split at each `'\n'`
    pub fn lines(text: &str, style: Style) -> (r: Vec<Self>)
        ensures
            r@.len() == split_lines(text@).len(),
            forall|k: int| 0 <= k < r@.len() ==> all_wf((#[trigger] r@[k]).spans@) && span_views(r@[k].spans@)
                == seq![(split_lines(text@)[k], style)],
    {
        let n = text.unicode_len();
        let mut out: Vec<Paragraph> = Vec::new();
        let mut from: usize = 0;
        let mut i: usize = 0;
        assert(text@.subrange(0, 0) =~= Seq::<char>::empty());
        assert(text@.subrange(0, 0).len() == 0);
        while i < n
            invariant
                n == text@.len(),
                from <= i <= n,
                out@.len() + 1 == split_lines(text@.subrange(0, i as int)).len(),
                split_lines(text@.subrange(0, i as int)).last() == text@.subrange(from as int, i as int),
                forall|k: int| 0 <= k < out@.len() ==> all_wf((#[trigger] out@[k]).spans@) && span_views(out@[k].spans@)
                    == seq![(split_lines(text@.subrange(0, i as int))[k], style)],
            decreases n - i,
        {
            let ghost pre = text@.subrange(0, i as int);
            let ghost next = text@.subrange(0, i + 1);
            assert(next.drop_last() =~= pre);
            assert(next.last() == text@[i as int]);
            proof {
                lemma_split_lines_nonempty(pre);
            }
            let ghost prev_out = out@;
            if text.get_char(i) == '\n' {
                let part = crate::chars::substring(text, from, i);
                let para = Paragraph::plain(part.as_str(), style);
                out.push(para);
                from = i + 1;
                assert(text@.subrange(from as int, i + 1) =~= Seq::<char>::empty());
                assert forall|k: int| 0 <= k < out@.len() implies all_wf((#[trigger] out@[k]).spans@)
                    && span_views(out@[k].spans@) == seq![(split_lines(next)[k], style)] by {
                    if k < prev_out.len() {
                        assert(out@[k] == prev_out[k]);
                    }
                }
            } else {
                assert(text@.subrange(from as int, i + 1) =~= text@.subrange(from as int, i as int).push(
                    text@[i as int],
                ));
                assert forall|k: int| 0 <= k < out@.len() implies all_wf((#[trigger] out@[k]).spans@)
                    && span_views(out@[k].spans@) == seq![(split_lines(next)[k], style)] by {
                    assert(out@[k] == prev_out[k]);
                }
            }
            i = i + 1;
        }
        assert(text@.subrange(0, n as int) =~= text@);
        let part = crate::chars::substring(text, from, n);
        let ghost prev_out = out@;
        out.push(Paragraph::plain(part.as_str(), style));
        assert forall|k: int| 0 <= k < out@.len() implies all_wf((#[trigger] out@[k]).spans@)
            && span_views(out@[k].spans@) == seq![(split_lines(text@)[k], style)] by {
            if k < prev_out.len() {
                assert(out@[k] == prev_out[k]);
            }
        }
        out
    }

    /// Sets the wrapping of the paragraph
    pub fn wrap(self, wrap: Wrap) -> (r: Self)
        ensures
            r == (Paragraph { wrap, ..self }),
    {
        Paragraph { wrap, ..self }
    }

    /// Sets the horizontal alignment of each line
    pub fn align(self, align: Align) -> (r: Self)
        ensures
            r == (Paragraph { align, ..self }),
    {
        Paragraph { align, ..self }
    }

    /// Sets the indentation of the first line
    pub fn first_indent(self, value: u16) -> (r: Self)
        ensures
            r == (Paragraph { first_indent: value, ..self }),
    {
        Paragraph { first_indent: value, ..self }
    }

    /// Sets the indentation of the lines after the first
    pub fn indent(self, value: u16) -> (r: Self)
        ensures
            r == (Paragraph { indent: value, ..self }),
    {
        Paragraph { indent: value, ..self }
    }
}

/// The column of span `k` of a line whose first span starts at `start`:
/// each span moves the next by its width (cut to `u16`), saturating.
pub open spec fn span_offset(spans: Seq<SpanView>, k: int, start: int) -> int
    decreases k,
{
    if k <= 0 {
        start
    } else {
        sat_add16(span_offset(spans, k - 1, start), text_width(spans[k - 1].0) as u16 as int)
    }
}

/// The cells after writing the first `k` spans of a line on row `y`, the
/// first starting `start` columns right of `x`.
pub open spec fn spans_cells(
    cells: Seq<CellView>,
    width: int,
    height: int,
    spans: Seq<SpanView>,
    k: int,
    x: int,
    start: int,
    y: int,
) -> Seq<CellView>
    decreases k,
{
    if k <= 0 || k > spans.len() {
        cells
    } else {
        let prev = spans_cells(cells, width, height, spans, k - 1, x, start, y);
        let g = graphemes_of(spans[k - 1].0);
        write_run(
            prev,
            width,
            height,
            (sat_add16(x, span_offset(spans, k - 1, start)) as u16, y as u16),
            g.skip(0),
            spans[k - 1].1,
            run_len(g.len() as int, 0, width, edge_room(width, height, (sat_add16(x, span_offset(spans, k - 1, start)) as u16, y as u16))),
        )
    }
}

/// Where line `i` of a paragraph starts: its indentation (at most the width
/// less one) plus the offset of its alignment.
pub open spec fn line_start(p: Paragraph, rect: Rect, i: int, line: Seq<SpanView>) -> int {
    let base = if i == 0 { p.first_indent as int } else { p.indent as int };
    let cap = sat_sub(rect.width as int, 1);
    let indent = min_int(base, cap);
    let line_width = min_int(flow_width(line), usize::MAX as int);
    sat_add16(indent, align_offset(p.align, line_width, rect.width as int) as u16 as int)
}

/// The cells after writing the first `k` lines of a paragraph, one per row.
pub open spec fn paragraph_cells(
    p: Paragraph,
    cells: Seq<CellView>,
    width: int,
    height: int,
    rect: Rect,
    lines: Seq<Seq<SpanView>>,
    k: int,
) -> Seq<CellView>
    decreases k,
{
    if k <= 0 || k > lines.len() {
        cells
    } else {
        let prev = paragraph_cells(p, cells, width, height, rect, lines, k - 1);
        let line = lines[k - 1];
        spans_cells(
            prev,
            width,
            height,
            line,
            line.len() as int,
            rect.x as int,
            line_start(p, rect, k - 1, line),
            sat_add16(rect.y as int, k - 1),
        )
    }
}

impl Paragraph {
    /// Draws the paragraph into `rect`: wrapped to the region (at most one
    /// line per row), each line indented, aligned and written span after
    /// span on its row. Returns the rows used.
    pub fn render(&self, buf: &mut Buffer, rect: Rect) -> (r: Rect)
        requires
            all_wf(self.spans@),
            old(buf).wf(),
        ensures
            final(buf).wf(),
            final(buf).width == old(buf).width,
            final(buf).height == old(buf).height,
            r == paragraph_area(*self, rect),
            final(buf)@ == paragraph_cells(
                *self,
                old(buf)@,
                old(buf).width as int,
                old(buf).height as int,
                rect,
                paragraph_lines(*self, rect),
                min_int(paragraph_lines(*self, rect).len() as int, rect.height as int),
            ),
    {
        let max_width = rect.width;
        let lines = self.wrap.calc_spans(
            &self.spans,
            max_width as usize,
            Some(rect.height as usize + 1usize),
            self.first_indent as usize,
            self.indent as usize,
        );
        assert(room_of(Some((rect.height + 1) as usize), 0) == Some(rect.height + 1));
        let ghost lv = line_views(lines@);
        assert(lv.len() == lines@.len());
        let ghost start = buf@;
        let ghost w = buf.width as int;
        let ghost h = buf.height as int;
        let mut height: u16 = 0;
        let mut li: usize = 0;
        while li < lines.len()
            invariant
                buf.wf(),
                buf.width == w,
                buf.height == h,
                w == old(buf).width,
                h == old(buf).height,
                start == old(buf)@,
                max_width == rect.width,
                forall|i: int| 0 <= i < lines@.len() ==> (#[trigger] lines@[i]).wf(),
                lv == line_views(lines@),
                lv == paragraph_lines(*self, rect),
                li <= lines@.len(),
                li <= rect.height,
                height == li,
                buf@ == paragraph_cells(*self, start, w, h, rect, lv, li as int),
            decreases lines@.len() - li,
        {
            if li >= rect.height as usize {
                return Rect::default();
            }
            let line = &lines[li];
            assert(line.wf());
            let ghost lview = lv[li as int];
            assert(lview == crate::text::span_views(line.spans@));
            let base = if li == 0 { self.first_indent } else { self.indent };
            let cap = max_width.saturating_sub(1);
            let base = if base < cap { base } else { cap };
            let shift = self.align.calc(line.width, max_width as usize);
            let mut offset: u16 = base.saturating_add(shift as u16);
            assert(line.width == min_int(flow_width(lview), usize::MAX as int));
            assert(shift == align_offset(self.align, line.width as int, rect.width as int));
            assert(base == min_int(if li == 0 { self.first_indent as int } else { self.indent as int }, sat_sub(rect.width as int, 1)));
            assert(offset == line_start(*self, rect, li as int, lview));
            let ghost line_begin = buf@;
            let ghost first = offset as int;
            let y = rect.y.saturating_add(height);
            let mut si: usize = 0;
            while si < line.spans.len()
                invariant
                    buf.wf(),
                    buf.width == w,
                    buf.height == h,
                    line.wf(),
                    lview == crate::text::span_views(line.spans@),
                    si <= line.spans@.len(),
                    offset == span_offset(lview, si as int, first),
                    buf@ == spans_cells(line_begin, w, h, lview, si as int, rect.x as int, first, y as int),
                decreases line.spans@.len() - si,
            {
                let span = &line.spans[si];
                assert(span.wf());
                assert(lview[si as int] == span@);
                buf.set_string((rect.x.saturating_add(offset), y), 0, span.text(), span.style());
                offset = offset.saturating_add(span.width() as u16);
                si = si + 1;
            }
            height = height + 1;
            li = li + 1;
        }
        rect.with_height(height)
    }
}

/// The region a paragraph drawn into `rect` uses: its rows, or an empty
/// rect when its lines do not fit.
pub open spec fn paragraph_area(p: Paragraph, rect: Rect) -> Rect {
    let n = paragraph_lines(p, rect).len();
    if n > rect.height {
        Rect { x: 0, y: 0, width: 0, height: 0 }
    } else {
        Rect { height: n as u16, ..rect }
    }
}

impl Draw for Paragraph {
    open spec fn ready(&self) -> bool {
        all_wf(self.spans@)
    }

    open spec fn drawn(&self, cells: Seq<CellView>, width: int, height: int, rect: Rect) -> Seq<CellView> {
        paragraph_cells(
            *self,
            cells,
            width,
            height,
            rect,
            paragraph_lines(*self, rect),
            min_int(paragraph_lines(*self, rect).len() as int, rect.height as int),
        )
    }

    open spec fn area(&self, rect: Rect) -> Rect {
        paragraph_area(*self, rect)
    }

    /// Draws the paragraph; see `render`.
    fn draw(self, buf: &mut Buffer, rect: Rect) -> (r: Rect) {
        self.render(buf, rect)
    }
}

} // verus!
