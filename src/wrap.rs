//! Breaking text into width-bounded lines under a wrap policy.
//!
//! Widths here are grapheme-cluster counts: a double-width glyph counts as
//! one column, a deliberate simplification that the draw side does not share.
use vstd::prelude::*;
use crate::chars::{
    lemma_trim_start_shorter, substring, trim_end, trim_start,
    trimmed_end, trimmed_start,
};
use crate::geometry::{max_int, sat_sub};
use crate::unicode::{
    graphemes, graphemes_of, join, lemma_join_at, lemma_join_split, lemma_join_take_len,
    lemma_join_take_step, views_of,
};
use crate::text::{
    all_wf, flow_string, flow_text, lemma_flow_text_concat, lemma_flow_text_one, lemma_locate,
    locate, locate_in, piece, span_views, split_left, split_right, split_spans_at, Line, Span,
    SpanView,
};

verus! {

/// How a line that is too long is broken
#[derive(Debug, Clone, Copy, PartialEq, Eq, Structural)]
pub enum Wrap {
    /// Let the text overflow on a single line
    NoWrap,
    /// Break at spaces; a word longer than the width overflows
    Words,
    /// Break at the width, wherever it falls
    Break,
    /// Break at spaces; a word longer than the width is cut at the width
    BreakWords,
}

impl Default for Wrap {
    fn default() -> (r: Self)
        ensures
            r == Wrap::NoWrap,
    {
        Wrap::NoWrap
    }
}

/// Width available to a line with `indent` columns of indentation (at least 1).
pub open spec fn line_limit(max_width: int, indent: int) -> int {
    max_int(sat_sub(max_width, indent), 1)
}

/// A cluster that is a single space.
pub open spec fn is_space(c: Seq<char>) -> bool {
    c == seq![' ']
}

/// Index of the last space among clusters `gs[..end]`.
pub open spec fn last_space_before(gs: Seq<Seq<char>>, end: int) -> Option<int>
    decreases end,
{
    if end <= 0 {
        None
    } else if is_space(gs[end - 1]) {
        Some(end - 1)
    } else {
        last_space_before(gs, end - 1)
    }
}

/// Index of the first space among clusters `gs[start..]`.
pub open spec fn first_space_from(gs: Seq<Seq<char>>, start: int) -> Option<int>
    decreases gs.len() - start,
{
    if start < 0 || start >= gs.len() {
        None
    } else if is_space(gs[start]) {
        Some(start)
    } else {
        first_space_from(gs, start + 1)
    }
}

/// The cluster at which a line of clusters `gs` is broken when only `limit`
/// clusters fit: nowhere if it fits or the policy finds no place; else the
/// last space within the limit, falling back (by policy) to the first space
/// after it, to the limit itself, or to nothing.
pub open spec fn break_point(kind: Wrap, gs: Seq<Seq<char>>, limit: int) -> Option<int> {
    if gs.len() <= limit {
        None
    } else {
        match kind {
            Wrap::NoWrap => None,
            Wrap::Break => Some(limit),
            Wrap::BreakWords => match last_space_before(gs, limit) {
                Some(i) => Some(i),
                None => Some(limit),
            },
            Wrap::Words => match last_space_before(gs, limit) {
                Some(i) => Some(i),
                None => first_space_from(gs, limit),
            },
        }
    }
}

/// The character position at which cluster `b` starts.
pub open spec fn cluster_start(gs: Seq<Seq<char>>, b: int) -> int {
    join(gs.take(b)).len() as int
}

/// The line before a break at `b`: whitespace at its end is dropped, except
/// under `Break`, which keeps every character.
pub open spec fn head_at(kind: Wrap, s: Seq<char>, b: int) -> Seq<char> {
    if kind == Wrap::Break { s.subrange(0, b) } else { trim_end(s.subrange(0, b)) }
}

/// What is left after a break at `b`, leading whitespace dropped except under `Break`.
pub open spec fn tail_at(kind: Wrap, s: Seq<char>, b: int) -> Seq<char> {
    if kind == Wrap::Break {
        s.subrange(b, s.len() as int)
    } else {
        trim_start(s.subrange(b, s.len() as int))
    }
}

/// The character sequences of a list of strings.
pub open spec fn string_views(v: Seq<String>) -> Seq<Seq<char>> {
    v.map_values(|l: String| l@)
}

/// Lines left to emit: `None` for no cap.
pub open spec fn room_after(room: Option<int>) -> Option<int> {
    match room {
        Some(k) => Some(k - 1),
        None => None,
    }
}

/// The lines that wrapping `s` yields when its first line is indented by
/// `cur_indent` and each later one by `indent`, with at most `room` lines.
pub open spec fn wrap_lines(
    kind: Wrap,
    s: Seq<char>,
    max_width: int,
    room: Option<int>,
    cur_indent: int,
    indent: int,
) -> Seq<Seq<char>>
    decreases s.len(),
{
    if room matches Some(k) && k <= 0 {
        seq![]
    } else {
        let gs = graphemes_of(s);
        match break_point(kind, gs, line_limit(max_width, cur_indent)) {
            None => if s.len() == 0 { seq![] } else { seq![s] },
            Some(b) => {
                let p = cluster_start(gs, b);
                let rest = tail_at(kind, s, p);
                if 0 <= p <= s.len() && rest.len() < s.len() {
                    seq![head_at(kind, s, p)] + wrap_lines(
                        kind,
                        rest,
                        max_width,
                        room_after(room),
                        indent,
                        indent,
                    )
                } else {
                    seq![head_at(kind, s, p)]
                }
            },
        }
    }
}

pub open spec fn room_of(max_lines: Option<usize>, used: int) -> Option<int> {
    match max_lines {
        Some(m) => Some(m - used),
        None => None,
    }
}

proof fn lemma_last_space_bounds(gs: Seq<Seq<char>>, end: int)
    ensures
        last_space_before(gs, end) matches Some(i) ==> 0 <= i < end && is_space(gs[i]),
    decreases end,
{
    if end > 0 && !is_space(gs[end - 1]) {
        lemma_last_space_bounds(gs, end - 1);
    }
}

proof fn lemma_first_space_bounds(gs: Seq<Seq<char>>, start: int)
    ensures
        first_space_from(gs, start) matches Some(i) ==> start <= i < gs.len() && is_space(gs[i]),
    decreases gs.len() - start,
{
    if 0 <= start < gs.len() && !is_space(gs[start]) {
        lemma_first_space_bounds(gs, start + 1);
    }
}

/// A break always lands on a cluster of the text, starts a character of it,
/// and leaves less of the text to wrap.
proof fn lemma_break_progress(kind: Wrap, s: Seq<char>, gs: Seq<Seq<char>>, limit: int)
    requires
        limit >= 1,
        join(gs) == s,
        forall|i: int| 0 <= i < gs.len() ==> (#[trigger] gs[i]).len() > 0,
    ensures
        break_point(kind, gs, limit) matches Some(b) ==> {
            let p = cluster_start(gs, b);
            &&& 0 <= b < gs.len()
            &&& 0 <= p < s.len()
            &&& (is_space(gs[b]) ==> s[p] == ' ')
            &&& tail_at(kind, s, p).len() < s.len()
        },
{
    lemma_last_space_bounds(gs, limit);
    lemma_first_space_bounds(gs, limit);
    if let Some(b) = break_point(kind, gs, limit) {
        lemma_join_at(gs, b);
        let p = cluster_start(gs, b);
        let t = s.subrange(p, s.len() as int);
        lemma_trim_start_shorter(t);
        if b == limit {
            lemma_join_take_len(gs, b);
        } else {
            assert(is_space(gs[b]));
            assert(gs[b][0] == ' ');
            assert(t[0] == ' ');
        }
        if is_space(gs[b]) {
            assert(gs[b][0] == ' ');
        }
    }
}

/// Under the hard-break policies a line never holds more clusters than the
/// limit: the break falls at cluster `limit` (`Break`) or at a space within
/// it (`BreakWords`), and the line's characters are the clusters before it.
pub proof fn lemma_hard_break_within_limit(kind: Wrap, s: Seq<char>, gs: Seq<Seq<char>>, limit: int)
    requires
        kind == Wrap::Break || kind == Wrap::BreakWords,
        limit >= 1,
        gs.len() > limit,
        join(gs) == s,
    ensures
        break_point(kind, gs, limit) matches Some(b) && b <= limit,
        kind == Wrap::Break ==> break_point(kind, gs, limit) == Some(limit) && head_at(
            kind,
            s,
            cluster_start(gs, limit),
        ) == join(gs.take(limit)),
{
    lemma_last_space_bounds(gs, limit);
    if kind == Wrap::Break {
        lemma_join_split(gs, limit);
        assert(s.subrange(0, cluster_start(gs, limit)) =~= join(gs.take(limit)));
    }
}

/// Under `Words` a line breaks only at a space cluster: the character at the
/// break is a space, the line keeps what precedes it less trailing
/// whitespace, and what follows it, less leading whitespace, is wrapped next.
pub proof fn lemma_words_break_at_space(s: Seq<char>, gs: Seq<Seq<char>>, limit: int)
    requires
        limit >= 1,
        join(gs) == s,
        forall|i: int| 0 <= i < gs.len() ==> (#[trigger] gs[i]).len() > 0,
    ensures
        break_point(Wrap::Words, gs, limit) matches Some(b) ==> {
            let p = cluster_start(gs, b);
            &&& is_space(gs[b])
            &&& s[p] == ' '
            &&& head_at(Wrap::Words, s, p) == trim_end(s.subrange(0, p))
            &&& tail_at(Wrap::Words, s, p) == trim_start(s.subrange(p, s.len() as int))
        },
{
    lemma_last_space_bounds(gs, limit);
    lemma_first_space_bounds(gs, limit);
    lemma_break_progress(Wrap::Words, s, gs, limit);
}

/// Whether a cluster is a single space.
fn space_cluster(g: &String) -> (r: bool)
    ensures
        r == is_space(g@),
{
    let s = g.as_str();
    let r = s.unicode_len() == 1 && s.get_char(0) == ' ';
    proof {
        if r {
            assert(g@ =~= seq![' ']);
        }
    }
    r
}

/// Where, as a cluster index, the first line of clusters `gs` breaks.
fn find_break(kind: Wrap, gs: &Vec<String>, limit: usize) -> (r: Option<usize>)
    ensures
        r matches Some(b) ==> b == break_point(kind, views_of(gs@), limit as int)->Some_0,
        r is None <==> break_point(kind, views_of(gs@), limit as int) is None,
{
    let ghost v = views_of(gs@);
    let n = gs.len();
    if n <= limit {
        return None;
    }
    if kind == Wrap::NoWrap {
        return None;
    }
    if kind == Wrap::Break {
        return Some(limit);
    }
    let mut j = limit;
    while j > 0
        invariant
            j <= limit < n == gs@.len(),
            v == views_of(gs@),
            kind == Wrap::Words || kind == Wrap::BreakWords,
            last_space_before(v, limit as int) == last_space_before(v, j as int),
        decreases j,
    {
        assert(v[j - 1] == gs@[j - 1]@);
        if space_cluster(&gs[j - 1]) {
            assert(last_space_before(v, j as int) == Some((j - 1) as int));
            return Some(j - 1);
        }
        j = j - 1;
    }
    assert(last_space_before(v, 0) is None);
    if kind == Wrap::BreakWords {
        return Some(limit);
    }
    let mut k = limit;
    while k < n
        invariant
            limit <= k <= n == gs@.len(),
            v == views_of(gs@),
            kind == Wrap::Words,
            last_space_before(v, limit as int) is None,
            first_space_from(v, limit as int) == first_space_from(v, k as int),
        decreases n - k,
    {
        assert(v[k as int] == gs@[k as int]@);
        if space_cluster(&gs[k]) {
            assert(first_space_from(v, k as int) == Some(k as int));
            return Some(k);
        }
        k = k + 1;
    }
    assert(first_space_from(v, n as int) is None);
    None
}

/// The character position at which cluster `b` of `gs` starts.
fn cluster_pos(gs: &Vec<String>, b: usize, n: usize) -> (p: usize)
    requires
        b <= gs@.len(),
        n == join(views_of(gs@)).len(),
    ensures
        p == cluster_start(views_of(gs@), b as int),
{
    let ghost v = views_of(gs@);
    let mut p: usize = 0;
    let mut k: usize = 0;
    assert(v.take(0) =~= Seq::<Seq<char>>::empty());
    while k < b
        invariant
            k <= b <= gs@.len(),
            v == views_of(gs@),
            n == join(v).len(),
            p == join(v.take(k as int)).len(),
        decreases b - k,
    {
        proof {
            lemma_join_take_step(v, k as int);
            lemma_join_split(v, k + 1);
        }
        assert(v[k as int] == gs@[k as int]@);
        p = p + gs[k].as_str().unicode_len();
        k = k + 1;
    }
    p
}

fn wrap_str(
    kind: Wrap,
    string: &str,
    max_width: usize,
    max_lines: Option<usize>,
    first_indent: usize,
    indent: usize,
) -> (r: Vec<String>)
    ensures
        string_views(r@) == wrap_lines(
            kind,
            string@,
            max_width as int,
            room_of(max_lines, 0),
            first_indent as int,
            indent as int,
        ),
{
    let mut lines: Vec<String> = Vec::new();
    let mut rest = String::from_str(string);
    let mut cur_indent = first_indent;
    let ghost whole = wrap_lines(
        kind,
        string@,
        max_width as int,
        room_of(max_lines, 0),
        first_indent as int,
        indent as int,
    );
    loop
        invariant
            whole == wrap_lines(
                kind,
                string@,
                max_width as int,
                room_of(max_lines, 0),
                first_indent as int,
                indent as int,
            ),
            string_views(lines@) + wrap_lines(
                kind,
                rest@,
                max_width as int,
                room_of(max_lines, lines@.len() as int),
                cur_indent as int,
                indent as int,
            ) == whole,
        decreases rest@.len(),
    {
        let ghost before = string_views(lines@);
        if let Some(m) = max_lines {
            if lines.len() >= m {
                assert(wrap_lines(
                    kind,
                    rest@,
                    max_width as int,
                    room_of(max_lines, lines@.len() as int),
                    cur_indent as int,
                    indent as int,
                ) == Seq::<Seq<char>>::empty());
                assert(before + Seq::<Seq<char>>::empty() =~= before);
                return lines;
            }
        }
        let n = rest.as_str().unicode_len();
        let gs = graphemes(rest.as_str());
        let ghost gv = views_of(gs@);
        let limit = if max_width > cur_indent { max_width - cur_indent } else { 0 };
        let limit = if limit < 1 { 1 } else { limit };
        let found = find_break(kind, &gs, limit);
        assert(limit == line_limit(max_width as int, cur_indent as int));
        let ghost now = wrap_lines(
            kind,
            rest@,
            max_width as int,
            room_of(max_lines, lines@.len() as int),
            cur_indent as int,
            indent as int,
        );
        match found {
            None => {
                if n > 0 {
                    assert(now == seq![rest@]);
                    lines.push(rest);
                    assert(string_views(lines@) =~= before + seq![rest@]);
                } else {
                    assert(now == Seq::<Seq<char>>::empty());
                    assert(before + Seq::<Seq<char>>::empty() =~= before);
                }
                return lines;
            },
            Some(cb) => {
                proof {
                    assert forall|i: int| 0 <= i < gv.len() implies (#[trigger] gv[i]).len() > 0 by {
                        assert(gv[i] == gs@[i]@);
                    }
                    lemma_break_progress(kind, rest@, gv, limit as int);
                }
                let b = cluster_pos(&gs, cb, n);
                let s = rest.as_str();
                let (head, tail) = if kind == Wrap::Break {
                    (substring(s, 0, b), substring(s, b, n))
                } else {
                    let e = trimmed_end(s, b);
                    let t = trimmed_start(s, b);
                    proof {
                        assert(s@.subrange(0, b as int).subrange(0, e as int) =~= s@.subrange(
                            0,
                            e as int,
                        ));
                    }
                    (substring(s, 0, e), substring(s, t, n))
                };
                assert(head@ == head_at(kind, rest@, b as int));
                assert(tail@ == tail_at(kind, rest@, b as int));
                let ghost old_room = room_of(max_lines, lines@.len() as int);
                lines.push(head);
                assert(string_views(lines@) =~= before + seq![head@]);
                assert(room_of(max_lines, lines@.len() as int) == room_after(old_room));
                assert(before + seq![head@] + wrap_lines(
                    kind,
                    tail@,
                    max_width as int,
                    room_after(old_room),
                    indent as int,
                    indent as int,
                ) =~= before + (seq![head@] + wrap_lines(
                    kind,
                    tail@,
                    max_width as int,
                    room_after(old_room),
                    indent as int,
                    indent as int,
                )));
                rest = tail;
                cur_indent = indent;
            },
        }
    }
}

/// The lines of spans that wrapping a flow yields. The break position is
/// found on the clusters of the flow's text as for plain text, then cut
/// inside the span that holds it; only whitespace of that span is trimmed at
/// the cut.
pub open spec fn wrap_flow(
    kind: Wrap,
    f: Seq<SpanView>,
    max_width: int,
    room: Option<int>,
    cur_indent: int,
    indent: int,
) -> Seq<Seq<SpanView>>
    decreases flow_text(f).len(),
{
    if room matches Some(k) && k <= 0 {
        seq![]
    } else {
        let gs = graphemes_of(flow_text(f));
        match break_point(kind, gs, line_limit(max_width, cur_indent)) {
            None => if f.len() == 0 { seq![] } else { seq![f] },
            Some(b) => {
                let (i, o) = locate(f, cluster_start(gs, b));
                let trim = kind != Wrap::Break;
                let right = split_right(f, i, o, trim);
                if flow_text(right).len() < flow_text(f).len() {
                    seq![split_left(f, i, o, trim)] + wrap_flow(
                        kind,
                        right,
                        max_width,
                        room_after(room),
                        indent,
                        indent,
                    )
                } else {
                    seq![split_left(f, i, o, trim)]
                }
            },
        }
    }
}

/// The span views of each line.
pub open spec fn line_views(v: Seq<Line>) -> Seq<Seq<SpanView>> {
    v.map_values(|l: Line| span_views(l.spans@))
}

/// A break inside a flow leaves fewer characters to wrap.
proof fn lemma_flow_progress(kind: Wrap, f: Seq<SpanView>, gs: Seq<Seq<char>>, limit: int)
    requires
        limit >= 1,
        join(gs) == flow_text(f),
        forall|i: int| 0 <= i < gs.len() ==> (#[trigger] gs[i]).len() > 0,
        break_point(kind, gs, limit) is Some,
    ensures
        ({
            let p = cluster_start(gs, break_point(kind, gs, limit)->Some_0);
            let (i, o) = locate(f, p);
            &&& 0 <= p < flow_text(f).len()
            &&& 0 <= i < f.len()
            &&& 0 <= o < f[i].0.len()
            &&& flow_text(split_right(f, i, o, kind != Wrap::Break)).len() < flow_text(f).len()
        }),
{
    let t = flow_text(f);
    lemma_break_progress(kind, t, gs, limit);
    lemma_last_space_bounds(gs, limit);
    lemma_first_space_bounds(gs, limit);
    let b = break_point(kind, gs, limit)->Some_0;
    let p = cluster_start(gs, b);
    lemma_locate(f, p);
    let (i, o) = locate(f, p);
    let trim = kind != Wrap::Break;
    let c = f[i].0.subrange(o, f[i].0.len() as int);
    let rp = if trim { trim_start(c) } else { c };
    crate::chars::lemma_trim_start_shorter(c);
    let tail = f.subrange(i + 1, f.len() as int);
    lemma_flow_text_concat(piece(rp, f[i].1), tail);
    if rp.len() > 0 {
        lemma_flow_text_one((rp, f[i].1));
    } else {
        assert(flow_text(Seq::<SpanView>::empty()) =~= Seq::<char>::empty());
    }
    if b != limit {
        assert(is_space(gs[b]));
        assert(t[p] == ' ');
        assert(c[0] == ' ');
    } else {
        lemma_join_take_len(gs, b);
    }
}

fn wrap_spans(
    kind: Wrap,
    spans: &Vec<Span>,
    max_width: usize,
    max_lines: Option<usize>,
    first_indent: usize,
    indent: usize,
) -> (r: Vec<Line>)
    requires
        all_wf(spans@),
    ensures
        forall|i: int| 0 <= i < r@.len() ==> (#[trigger] r@[i]).wf(),
        line_views(r@) == wrap_flow(
            kind,
            span_views(spans@),
            max_width as int,
            room_of(max_lines, 0),
            first_indent as int,
            indent as int,
        ),
{
    let mut lines: Vec<Line> = Vec::new();
    let mut rest: Vec<Span> = Vec::new();
    let mut c: usize = 0;
    while c < spans.len()
        invariant
            c <= spans@.len(),
            all_wf(spans@),
            all_wf(rest@),
            span_views(rest@) == span_views(spans@).subrange(0, c as int),
        decreases spans@.len() - c,
    {
        let ghost before = rest@;
        assert(spans@[c as int].wf());
        let s = spans[c].copy_of();
        rest.push(s);
        assert(span_views(before).len() == before.len());
        assert(span_views(rest@) =~= span_views(spans@).subrange(0, c + 1)) by {
            assert forall|j: int| 0 <= j < c + 1 implies #[trigger] span_views(rest@)[j]
                == span_views(spans@)[j] by {
                assert(span_views(rest@)[j] == rest@[j]@);
                if j < c {
                    assert(rest@[j] == before[j]);
                    assert(span_views(before)[j] == before[j]@);
                }
            }
        }
        c = c + 1;
    }
    assert(span_views(spans@).subrange(0, spans@.len() as int) =~= span_views(spans@));
    let mut cur_indent = first_indent;
    let ghost whole = wrap_flow(
        kind,
        span_views(spans@),
        max_width as int,
        room_of(max_lines, 0),
        first_indent as int,
        indent as int,
    );
    loop
        invariant
            all_wf(rest@),
            forall|i: int| 0 <= i < lines@.len() ==> (#[trigger] lines@[i]).wf(),
            whole == wrap_flow(
                kind,
                span_views(spans@),
                max_width as int,
                room_of(max_lines, 0),
                first_indent as int,
                indent as int,
            ),
            line_views(lines@) + wrap_flow(
                kind,
                span_views(rest@),
                max_width as int,
                room_of(max_lines, lines@.len() as int),
                cur_indent as int,
                indent as int,
            ) == whole,
        decreases flow_text(span_views(rest@)).len(),
    {
        let ghost f = span_views(rest@);
        let ghost before = line_views(lines@);
        let ghost now = wrap_flow(
            kind,
            f,
            max_width as int,
            room_of(max_lines, lines@.len() as int),
            cur_indent as int,
            indent as int,
        );
        if let Some(m) = max_lines {
            if lines.len() >= m {
                assert(now == Seq::<Seq<SpanView>>::empty());
                assert(before + Seq::<Seq<SpanView>>::empty() =~= before);
                return lines;
            }
        }
        let text = flow_string(&rest);
        let n = text.as_str().unicode_len();
        let limit = if max_width > cur_indent { max_width - cur_indent } else { 0 };
        let limit = if limit < 1 { 1 } else { limit };
        assert(limit == line_limit(max_width as int, cur_indent as int));
        let gs = graphemes(text.as_str());
        let ghost gv = views_of(gs@);
        let found = find_break(kind, &gs, limit);
        match found {
            None => {
                assert(before.len() == lines@.len());
                if rest.len() > 0 {
                    assert(now == seq![f]);
                    let ghost prev_none = lines@;
                    let line = Line::new(rest);
                    lines.push(line);
                    assert(line_views(lines@) =~= before + seq![f]) by {
                        assert forall|j: int| 0 <= j < before.len() + 1 implies #[trigger] line_views(lines@)[j]
                            == (before + seq![f])[j] by {
                            if j < before.len() {
                                assert(lines@[j] == prev_none[j]);
                            }
                        }
                    }
                } else {
                    assert(now == Seq::<Seq<SpanView>>::empty());
                    assert(before + Seq::<Seq<SpanView>>::empty() =~= before);
                }
                return lines;
            },
            Some(cb) => {
                proof {
                    assert forall|i: int| 0 <= i < gv.len() implies (#[trigger] gv[i]).len() > 0 by {
                        assert(gv[i] == gs@[i]@);
                    }
                    lemma_flow_progress(kind, f, gv, limit as int);
                    lemma_break_progress(kind, flow_text(f), gv, limit as int);
                }
                let p = cluster_pos(&gs, cb, n);
                let (i, o) = locate_in(&rest, p, n);
                proof {
                    lemma_locate(f, p as int);
                }
                let trim = kind != Wrap::Break;
                let (left, right) = split_spans_at(&rest, i, o, trim);
                let ghost old_room = room_of(max_lines, lines@.len() as int);
                assert(now == seq![split_left(f, i as int, o as int, trim)] + wrap_flow(
                    kind,
                    split_right(f, i as int, o as int, trim),
                    max_width as int,
                    room_after(old_room),
                    indent as int,
                    indent as int,
                ));
                let ghost lv = span_views(left.spans@);
                let ghost prev = lines@;
                lines.push(left);
                assert(line_views(lines@) =~= before + seq![lv]) by {
                    assert forall|j: int| 0 <= j < before.len() + 1 implies #[trigger] line_views(lines@)[j]
                        == (before + seq![lv])[j] by {
                        if j < before.len() {
                            assert(lines@[j] == prev[j]);
                        }
                    }
                }
                assert(room_of(max_lines, lines@.len() as int) == room_after(old_room));
                assert(before + seq![lv] + wrap_flow(
                    kind,
                    span_views(right.spans@),
                    max_width as int,
                    room_after(old_room),
                    indent as int,
                    indent as int,
                ) =~= before + now);
                rest = right.spans;
                cur_indent = indent;
            },
        }
    }
}

/// Wrapping never yields more lines than the room it is given.
pub proof fn lemma_wrap_lines_room(
    kind: Wrap,
    s: Seq<char>,
    max_width: int,
    room: int,
    cur_indent: int,
    indent: int,
)
    ensures
        wrap_lines(kind, s, max_width, Some(room), cur_indent, indent).len() <= if room > 0 {
            room
        } else {
            0
        },
    decreases s.len(),
{
    if room > 0 {
        let gs = graphemes_of(s);
        if let Some(b) = break_point(kind, gs, line_limit(max_width, cur_indent)) {
            let p = cluster_start(gs, b);
            let rest = tail_at(kind, s, p);
            if 0 <= p <= s.len() && rest.len() < s.len() {
                lemma_wrap_lines_room(kind, rest, max_width, room - 1, indent, indent);
            }
        }
    }
}

impl Wrap {
    /// Wraps a plain string into lines.
    ///
    /// The first line has `first_indent` columns less room, the others
    /// `indent` less; no line gets less than one column. At most `max_lines`
    /// lines are produced. Widths are grapheme-cluster counts.
    pub fn calc(
        &self,
        string: &str,
        max_width: usize,
        max_lines: Option<usize>,
        first_indent: usize,
        indent: usize,
    ) -> (r: Vec<String>)
        ensures
            string_views(r@) == wrap_lines(
                *self,
                string@,
                max_width as int,
                room_of(max_lines, 0),
                first_indent as int,
                indent as int,
            ),
    {
        wrap_str(*self, string, max_width, max_lines, first_indent, indent)
    }

    /// Wraps a flow of styled spans into lines of spans. The break position
    /// is chosen as for plain text; a span cut there yields two spans of its
    /// style, and only that span's whitespace is trimmed at the cut.
    pub fn calc_spans(
        &self,
        spans: &Vec<Span>,
        max_width: usize,
        max_lines: Option<usize>,
        first_indent: usize,
        indent: usize,
    ) -> (r: Vec<Line>)
        requires
            all_wf(spans@),
        ensures
            forall|i: int| 0 <= i < r@.len() ==> (#[trigger] r@[i]).wf(),
            line_views(r@) == wrap_flow(
                *self,
                span_views(spans@),
                max_width as int,
                room_of(max_lines, 0),
                first_indent as int,
                indent as int,
            ),
    {
        wrap_spans(*self, spans, max_width, max_lines, first_indent, indent)
    }
}

} // verus!
