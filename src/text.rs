//! Styled text runs (spans) and lines of them.
use vstd::prelude::*;
use crate::chars::{substring, trim_end, trim_start, trimmed_end, trimmed_start};
use crate::style::Style;
use crate::unicode::{graphemes, graphemes_of};

verus! {

/// What a span shows: its characters and their style.
pub type SpanView = (Seq<char>, Style);

/// A styled run of text, with its width cached as a grapheme count.
#[derive(Debug, Clone, PartialEq, Eq)]
pub struct Span {
    content: String,
    style: Style,
    width: usize,
}

impl View for Span {
    type V = SpanView;

    closed spec fn view(&self) -> SpanView {
        (self.content@, self.style)
    }
}

/// Width of a run of text: its number of grapheme clusters.
pub open spec fn text_width(s: Seq<char>) -> nat {
    graphemes_of(s).len()
}

impl Span {
    /// The cached width is the grapheme count of the content.
    pub closed spec fn wf(&self) -> bool {
        self.width == text_width(self.content@)
    }

    pub fn new(content: &str, style: Style) -> (r: Self)
        ensures
            r.wf(),
            r@ == (content@, style),
    {
        let width = graphemes(content).len();
        Span { content: String::from_str(content), style, width }
    }

    /// Replaces the content and measures it again
    pub fn content(self, value: &str) -> (r: Self)
        ensures
            r.wf(),
            r@ == (value@, self@.1),
    {
        Span::new(value, self.style)
    }

    /// The content
    pub fn text(&self) -> (r: &str)
        ensures
            r@ == self@.0,
    {
        self.content.as_str()
    }

    /// The style
    pub fn style(&self) -> (r: Style)
        ensures
            r == self@.1,
    {
        self.style
    }

    /// Length of the content in bytes (its UTF-8 encoding)
    pub fn len(&self) -> (r: usize)
        ensures
            r == vstd::utf8::encode_utf8(self@.0).len() as usize,
    {
        self.content.as_str().len()
    }

    /// Width of the content: its number of graphemes
    pub fn width(&self) -> (r: usize)
        requires
            self.wf(),
        ensures
            r == text_width(self@.0),
    {
        self.width
    }

    /// This span in another style.
    pub closed spec fn with_style_spec(self, style: Style) -> Span {
        Span { style, ..self }
    }

    /// The same text in another style
    pub fn restyle(self, style: Style) -> (r: Self)
        ensures
            r == self.with_style_spec(style),
            r@ == (self@.0, style),
            r.wf() == self.wf(),
    {
        Span { style, ..self }
    }

    /// A copy of this span
    pub fn copy_of(&self) -> (r: Self)
        ensures
            r@ == self@,
            r.wf() == self.wf(),
    {
        Span { content: self.content.clone(), style: self.style, width: self.width }
    }
}

/// The views of a list of spans.
pub open spec fn span_views(v: Seq<Span>) -> Seq<SpanView> {
    v.map_values(|s: Span| s@)
}

/// Sum of the widths of a flow of spans.
pub open spec fn flow_width(f: Seq<SpanView>) -> int
    decreases f.len(),
{
    if f.len() == 0 {
        0
    } else {
        text_width(f[0].0) + flow_width(f.drop_first())
    }
}

/// Every span's cached width is right.
pub open spec fn all_wf(v: Seq<Span>) -> bool {
    forall|i: int| 0 <= i < v.len() ==> (#[trigger] v[i]).wf()
}

/// A line of spans with their total width
#[derive(Debug, Clone, PartialEq, Eq)]
pub struct Line {
    pub spans: Vec<Span>,
    /// Total width of the spans, saturating at the largest `usize`
    pub width: usize,
}

impl Line {
    /// The width is the (saturated) sum of the span widths.
    pub open spec fn wf(&self) -> bool {
        &&& all_wf(self.spans@)
        &&& self.width == crate::geometry::min_int(flow_width(span_views(self.spans@)), usize::MAX as int)
    }

    pub fn new(spans: Vec<Span>) -> (r: Self)
        requires
            all_wf(spans@),
        ensures
            r.wf(),
            r.spans@ == spans@,
    {
        let width = spans.spans_width();
        Line { spans, width }
    }
}

/// Total width of a list of spans.
pub trait SpansWidth {
    spec fn spans(&self) -> Seq<Span>;

    /// Sum of the span widths, saturating at the largest `usize`
    fn spans_width(&self) -> (r: usize)
        requires
            all_wf(self.spans()),
        ensures
            r == crate::geometry::min_int(flow_width(span_views(self.spans())), usize::MAX as int),
    ;
}

proof fn lemma_flow_width_nonneg(f: Seq<SpanView>)
    ensures
        flow_width(f) >= 0,
    decreases f.len(),
{
    if f.len() > 0 {
        lemma_flow_width_nonneg(f.drop_first());
    }
}

impl SpansWidth for Vec<Span> {
    open spec fn spans(&self) -> Seq<Span> {
        self@
    }

    fn spans_width(&self) -> (r: usize) {
        let n = self.len();
        let mut i = n;
        let mut total: usize = 0;
        // summed from the back so that each step adds the head of a suffix
        while i > 0
            invariant
                i <= n == self@.len(),
                all_wf(self@),
                total == crate::geometry::min_int(
                    flow_width(span_views(self@.subrange(i as int, n as int))),
                    usize::MAX as int,
                ),
            decreases i,
        {
            let ghost tail = span_views(self@.subrange(i as int, n as int));
            let ghost with = span_views(self@.subrange(i - 1, n as int));
            assert(with.drop_first() =~= tail);
            assert(with[0] == self@[i - 1]@);
            proof {
                lemma_flow_width_nonneg(tail);
            }
            assert(self@[i - 1].wf());
            let w = self[i - 1].width();
            total = total.saturating_add(w);
            i = i - 1;
        }
        assert(self@.subrange(0, n as int) =~= self@);
        total
    }
}

/// The characters of a flow of spans, in order.
pub open spec fn flow_text(f: Seq<SpanView>) -> Seq<char>
    decreases f.len(),
{
    if f.len() == 0 {
        Seq::empty()
    } else {
        f[0].0 + flow_text(f.drop_first())
    }
}

/// The span that holds character `p` of a flow, and the position of that
/// character inside it.
pub open spec fn locate(f: Seq<SpanView>, p: int) -> (int, int)
    decreases f.len(),
{
    if f.len() == 0 || p < f[0].0.len() {
        (0, p)
    } else {
        let r = locate(f.drop_first(), p - f[0].0.len());
        (r.0 + 1, r.1)
    }
}

/// A span made of part of another, dropped when the part is empty.
pub open spec fn piece(c: Seq<char>, style: Style) -> Seq<SpanView> {
    if c.len() == 0 { seq![] } else { seq![(c, style)] }
}

/// The spans before position `o` of span `i`: whitespace at the cut is
/// dropped when `trim` is set.
pub open spec fn split_left(f: Seq<SpanView>, i: int, o: int, trim: bool) -> Seq<SpanView> {
    let c = f[i].0.subrange(0, o);
    f.subrange(0, i) + piece(if trim { trim_end(c) } else { c }, f[i].1)
}

/// The spans from position `o` of span `i` on: whitespace at the cut is
/// dropped when `trim` is set.
pub open spec fn split_right(f: Seq<SpanView>, i: int, o: int, trim: bool) -> Seq<SpanView> {
    let c = f[i].0.subrange(o, f[i].0.len() as int);
    piece(if trim { trim_start(c) } else { c }, f[i].1) + f.subrange(i + 1, f.len() as int)
}

pub proof fn lemma_flow_text_concat(a: Seq<SpanView>, b: Seq<SpanView>)
    ensures
        flow_text(a + b) == flow_text(a) + flow_text(b),
    decreases a.len(),
{
    if a.len() == 0 {
        assert(a + b =~= b);
        assert(flow_text(a) =~= Seq::<char>::empty());
        assert(flow_text(a) + flow_text(b) =~= flow_text(b));
    } else {
        lemma_flow_text_concat(a.drop_first(), b);
        assert((a + b).drop_first() =~= a.drop_first() + b);
        assert(a[0].0 + (flow_text(a.drop_first()) + flow_text(b)) =~= (a[0].0 + flow_text(
            a.drop_first(),
        )) + flow_text(b));
    }
}

pub proof fn lemma_flow_text_one(x: SpanView)
    ensures
        flow_text(seq![x]) == x.0,
{
    assert(seq![x].drop_first() =~= Seq::<SpanView>::empty());
    assert(flow_text(Seq::<SpanView>::empty()) =~= Seq::<char>::empty());
    assert(x.0 + Seq::<char>::empty() =~= x.0);
}

/// Character `p` of a flow lies at the located span and offset, and what
/// follows it there is all that follows it in the flow.
pub proof fn lemma_locate(f: Seq<SpanView>, p: int)
    requires
        0 <= p < flow_text(f).len(),
    ensures
        0 <= locate(f, p).0 < f.len(),
        0 <= locate(f, p).1 < f[locate(f, p).0].0.len(),
        flow_text(f)[p] == f[locate(f, p).0].0[locate(f, p).1],
        flow_text(f.subrange(locate(f, p).0 + 1, f.len() as int)).len() + f[locate(
            f,
            p,
        ).0].0.len() - locate(f, p).1 == flow_text(f).len() - p,
    decreases f.len(),
{
    if f.len() == 0 {
    } else if p < f[0].0.len() {
        assert(f.subrange(1, f.len() as int) =~= f.drop_first());
    } else {
        let g = f.drop_first();
        lemma_locate(g, p - f[0].0.len());
        let (j, o) = locate(g, p - f[0].0.len());
        assert(f.subrange(j + 2, f.len() as int) =~= g.subrange(j + 1, g.len() as int));
    }
}

/// Splits a list of spans at character `char_index` of span `span_index`.
/// With `trim`, whitespace at the cut is dropped; empty pieces are dropped.
pub fn split_spans_at(spans: &Vec<Span>, span_index: usize, char_index: usize, trim: bool) -> (r: (
    Line,
    Line,
))
    requires
        span_index < spans@.len(),
        char_index <= spans@[span_index as int]@.0.len(),
        all_wf(spans@),
    ensures
        r.0.wf(),
        r.1.wf(),
        span_views(r.0.spans@) == split_left(span_views(spans@), span_index as int, char_index as int, trim),
        span_views(r.1.spans@) == split_right(span_views(spans@), span_index as int, char_index as int, trim),
{
    let ghost f = span_views(spans@);
    let n = spans.len();
    let mut left: Vec<Span> = Vec::new();
    let mut k: usize = 0;
    while k < span_index
        invariant
            k <= span_index < n == spans@.len(),
            f == span_views(spans@),
            all_wf(spans@),
            all_wf(left@),
            span_views(left@) == f.subrange(0, k as int),
        decreases span_index - k,
    {
        assert(spans@[k as int].wf());
        let c = spans[k].copy_of();
        let ghost before = left@;
        left.push(c);
        assert(left@ == before.push(c));
        assert(c@ == f[k as int]);
        assert(span_views(before).len() == before.len());
        assert(before.len() == k);
        assert(left@.len() == k + 1);
        assert(span_views(left@) =~= f.subrange(0, k + 1)) by {
            assert forall|j: int| 0 <= j < k + 1 implies #[trigger] span_views(left@)[j] == f[j] by {
                assert(span_views(left@)[j] == left@[j]@);
                if j < k {
                    assert(left@[j] == before[j]);
                    assert(span_views(before)[j] == before[j]@);
                    assert(span_views(before)[j] == f.subrange(0, k as int)[j]);
                } else {
                    assert(left@[j] == c);
                }
            }
        }
        k = k + 1;
    }
    let broken = &spans[span_index];
    let content = broken.text();
    let len = content.unicode_len();
    let (head, tail) = if trim {
        let e = trimmed_end(content, char_index);
        let b = trimmed_start(content, char_index);
        assert(content@.subrange(0, char_index as int).subrange(0, e as int) =~= content@.subrange(0, e as int));
        (substring(content, 0, e), substring(content, b, len))
    } else {
        (substring(content, 0, char_index), substring(content, char_index, len))
    };
    let ghost lpart = if trim { trim_end(f[span_index as int].0.subrange(0, char_index as int)) } else { f[span_index as int].0.subrange(0, char_index as int) };
    let ghost rpart = if trim { trim_start(f[span_index as int].0.subrange(char_index as int, len as int)) } else { f[span_index as int].0.subrange(char_index as int, len as int) };
    assert(head@ == lpart);
    assert(tail@ == rpart);
    let style = broken.style();
    let ghost left_before = span_views(left@);
    if head.as_str().unicode_len() > 0 {
        left.push(Span::new(head.as_str(), style));
        assert(span_views(left@) =~= left_before + piece(lpart, style));
    } else {
        assert(span_views(left@) =~= left_before + piece(lpart, style));
    }
    let mut right: Vec<Span> = Vec::new();
    if tail.as_str().unicode_len() > 0 {
        right.push(Span::new(tail.as_str(), style));
    }
    assert(span_views(right@) =~= piece(rpart, style));
    let mut m: usize = span_index + 1;
    while m < n
        invariant
            span_index < m <= n == spans@.len(),
            f == span_views(spans@),
            all_wf(spans@),
            all_wf(right@),
            span_views(right@) == piece(rpart, style) + f.subrange(span_index + 1, m as int),
        decreases n - m,
    {
        assert(spans@[m as int].wf());
        let c = spans[m].copy_of();
        let ghost before = right@;
        right.push(c);
        assert(right@ == before.push(c));
        assert(c@ == f[m as int]);
        assert(span_views(before).len() == before.len());
        assert(right@.len() == before.len() + 1);
        let ghost want = piece(rpart, style) + f.subrange(span_index + 1, m + 1);
        let ghost had = piece(rpart, style) + f.subrange(span_index + 1, m as int);
        assert(span_views(right@) =~= want) by {
            assert forall|j: int| 0 <= j < want.len() implies #[trigger] span_views(right@)[j] == want[j] by {
                assert(span_views(right@)[j] == right@[j]@);
                if j < had.len() {
                    assert(right@[j] == before[j]);
                    assert(span_views(before)[j] == before[j]@);
                    assert(span_views(before)[j] == had[j]);
                } else {
                    assert(right@[j] == c);
                }
            }
        }
        m = m + 1;
    }
    (Line::new(left), Line::new(right))
}

pub(crate) fn flow_string(spans: &Vec<Span>) -> (r: String)
    ensures
        r@ == flow_text(span_views(spans@)),
{
    let ghost f = span_views(spans@);
    let mut text = String::new();
    let mut j: usize = 0;
    while j < spans.len()
        invariant
            j <= spans@.len(),
            f == span_views(spans@),
            text@ == flow_text(f.subrange(0, j as int)),
        decreases spans@.len() - j,
    {
        proof {
            lemma_flow_text_concat(f.subrange(0, j as int), seq![f[j as int]]);
            lemma_flow_text_one(f[j as int]);
            assert(f.subrange(0, j as int) + seq![f[j as int]] =~= f.subrange(0, j + 1));
        }
        text.append(spans[j].text());
        j = j + 1;
    }
    assert(f.subrange(0, spans@.len() as int) =~= f);
    assert(flow_text(Seq::<SpanView>::empty()) =~= Seq::<char>::empty()) by {
        assert(f.subrange(0, 0) =~= Seq::<SpanView>::empty());
    }
    text
}

/// The span and the offset in it that hold character `p` of the flow.
pub(crate) fn locate_in(spans: &Vec<Span>, p: usize, n: usize) -> (r: (usize, usize))
    requires
        n == flow_text(span_views(spans@)).len(),
        p < n,
    ensures
        r.0 as int == locate(span_views(spans@), p as int).0,
        r.1 as int == locate(span_views(spans@), p as int).1,
{
    let ghost f = span_views(spans@);
    let len = spans.len();
    let mut i: usize = 0;
    let mut acc: usize = 0;
    assert(f.subrange(0, len as int) =~= f);
    if len == 0 {
        assert(flow_text(f) =~= Seq::<char>::empty());
    }
    loop
        invariant
            len == spans@.len() == f.len(),
            f == span_views(spans@),
            i < len,
            acc <= p < n,
            acc + flow_text(f.subrange(i as int, len as int)).len() == n,
            locate(f, p as int) == (
                i + locate(f.subrange(i as int, len as int), p - acc).0,
                locate(f.subrange(i as int, len as int), p - acc).1,
            ),
        decreases len - i,
    {
        let l = spans[i].text().unicode_len();
        let ghost g = f.subrange(i as int, len as int);
        assert(g.drop_first() =~= f.subrange(i + 1, len as int));
        assert(g[0] == f[i as int]);
        if p < acc + l {
            return (i, p - acc);
        }
        if i + 1 == len {
            assert(flow_text(f.subrange(i + 1, len as int)) =~= Seq::<char>::empty()) by {
                assert(f.subrange(i + 1, len as int) =~= Seq::<SpanView>::empty());
            }
        }
        acc = acc + l;
        i = i + 1;
    }
}

/// Splits a list of spans at character `pos` of their text; `None` when
/// `pos` lies past the end.
pub fn split_spans_at_char(spans: &Vec<Span>, pos: usize, trim: bool) -> (r: Option<(Line, Line)>)
    requires
        all_wf(spans@),
    ensures
        pos >= flow_text(span_views(spans@)).len() ==> r is None,
        pos < flow_text(span_views(spans@)).len() ==> (r matches Some(halves) && {
            let (i, o) = locate(span_views(spans@), pos as int);
            &&& halves.0.wf()
            &&& halves.1.wf()
            &&& span_views(halves.0.spans@) == split_left(span_views(spans@), i, o, trim)
            &&& span_views(halves.1.spans@) == split_right(span_views(spans@), i, o, trim)
        }),
{
    let text = flow_string(spans);
    let n = text.as_str().unicode_len();
    if pos >= n {
        return None;
    }
    proof {
        lemma_locate(span_views(spans@), pos as int);
    }
    let (i, o) = locate_in(spans, pos, n);
    assert(span_views(spans@)[i as int] == spans@[i as int]@);
    Some(split_spans_at(spans, i, o, trim))
}

} // verus!
