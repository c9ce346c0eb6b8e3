//! Fitting a string into a width: clipping with an optional marker, and
//! splicing one string into another.
use vstd::prelude::*;
use crate::geometry::{align_offset, sat_sub, Align};
use crate::unicode::{char_range, char_slice, display_width, str_width};

verus! {

/// What to do with a string that is too wide
#[derive(Debug, Clone, PartialEq, Eq)]
pub enum Clip {
    /// Leave the string as it is
    NoClip,
    /// Cut the string to the width
    Clip,
    /// Cut the string and mark the cut with `...`
    Ellipsis,
    /// Drop the whole string
    Hide,
    /// Cut the string and mark the cut with a string of one's own
    Custom(String),
}

impl Default for Clip {
    fn default() -> (r: Self)
        ensures
            r is NoClip,
    {
        Clip::NoClip
    }
}

/// The marker spliced in where a string was cut.
pub open spec fn marker_of(clip: Clip) -> Seq<char> {
    match clip {
        Clip::Ellipsis => seq!['.', '.', '.'],
        Clip::Custom(s) => s@,
        _ => Seq::empty(),
    }
}

/// `t` with `s` written over it at `pos` (characters of `t` under `s`
/// replaced), or appended when `pos` lies past `t`'s width.
pub open spec fn placed(t: Seq<char>, s: Seq<char>, pos: int) -> Seq<char> {
    if pos >= display_width(t) {
        t + s
    } else {
        char_range(t, 0, pos) + s + char_range(t, pos + display_width(s), t.len() as int)
    }
}

/// `t` with `s` written over it at its start, its end, or its center.
pub open spec fn placed_aligned(t: Seq<char>, s: Seq<char>, align: Align) -> Seq<char> {
    let tw = display_width(t) as int;
    let sw = display_width(s) as int;
    match align {
        Align::Start => s + char_range(t, sw, t.len() as int),
        Align::End => char_range(t, 0, sat_sub(tw, sw + 1)) + s,
        Align::Center => {
            let p = align_offset(Align::Center, sw, tw);
            char_range(t, 0, p) + s + char_range(t, p + sw, t.len() as int)
        },
    }
}

/// The cut string before the final trim: the kept characters with the marker
/// at the side that `align` names. Positions count characters but are
/// derived from display widths.
pub open spec fn cut_with_marker(s: Seq<char>, m: Seq<char>, max_width: int, align: Align) -> Seq<char> {
    let w = display_width(s) as int;
    let keep = sat_sub(max_width, display_width(m) as int);
    match align {
        Align::Start => m + char_range(s, sat_sub(w, keep), s.len() as int),
        Align::End => char_range(s, 0, keep) + m,
        Align::Center => {
            let left = max_width - max_width / 2;
            let right = max_width / 2;
            placed_aligned(
                char_range(s, 0, left) + char_range(s, sat_sub(w, right), s.len() as int),
                m,
                Align::Center,
            )
        },
    }
}

/// `s` fitted into `max_width` columns under a clip policy.
pub open spec fn clipped(clip: Clip, s: Seq<char>, max_width: int, align: Align) -> Seq<char> {
    if display_width(s) <= max_width || clip is NoClip {
        s
    } else if clip is Hide {
        Seq::empty()
    } else {
        let m = marker_of(clip);
        let r = cut_with_marker(s, m, max_width, align);
        fit_width(if display_width(m) == 0 { r } else { char_range(r, 0, max_width) }, max_width)
    }
}

/// `s` with characters dropped from its end until it is at most
/// `max_width` columns wide (or empty).
pub open spec fn fit_width(s: Seq<char>, max_width: int) -> Seq<char>
    decreases s.len(),
{
    if s.len() == 0 || display_width(s) <= max_width {
        s
    } else {
        fit_width(s.drop_last(), max_width)
    }
}

/// Drops characters from the end of `s` until it fits in `max_width` columns.
fn fit(s: &str, max_width: usize) -> (r: String)
    ensures
        r@ == fit_width(s@, max_width as int),
        display_width(r@) <= max_width,
{
    let mut len = s.unicode_len();
    let mut cur = String::from_str(s);
    let mut w = str_width(cur.as_str());
    assert(s@.subrange(0, len as int) =~= s@);
    while w > max_width
        invariant
            len <= s@.len(),
            cur@ == s@.subrange(0, len as int),
            w == display_width(cur@),
            cur@.len() == 0 ==> w == 0,
            fit_width(s@, max_width as int) == fit_width(cur@, max_width as int),
        decreases len,
    {
        assert(cur@.drop_last() =~= s@.subrange(0, len - 1));
        len = len - 1;
        cur = String::from_str(char_slice(s, 0, len));
        w = str_width(cur.as_str());
    }
    cur
}

fn concat(a: &str, b: &str) -> (r: String)
    ensures
        r@ == a@ + b@,
{
    String::from_str(a).concat(b)
}

/// Writes `s` over `text` at character `pos`, or appends it when `pos` lies
/// past the width of `text`.
pub fn place(text: &str, s: &str, pos: usize) -> (r: String)
    ensures
        r@ == placed(text@, s@, pos as int),
{
    let tw = str_width(text);
    let sw = str_width(s);
    let _n = text.unicode_len();
    if pos >= tw {
        return concat(text, s);
    }
    let head = concat(char_slice(text, 0, pos), s);
    let from = pos.saturating_add(sw);
    let tail = char_slice(text, from, usize::MAX);
    assert(char_range(text@, from as int, usize::MAX as int) == char_range(
        text@,
        pos + sw,
        text@.len() as int,
    ));
    concat(head.as_str(), tail)
}

/// Writes `s` over `text` at its start, its end or its center.
pub fn place_aligned(text: &str, s: &str, align: Align) -> (r: String)
    ensures
        r@ == placed_aligned(text@, s@, align),
{
    let tw = str_width(text);
    let sw = str_width(s);
    let _n = text.unicode_len();
    match align {
        Align::Start => {
            let tail = char_slice(text, sw, usize::MAX);
            assert(char_range(text@, sw as int, usize::MAX as int) == char_range(
                text@,
                sw as int,
                text@.len() as int,
            ));
            concat(s, tail)
        },
        Align::End => {
            let end = tw.saturating_sub(sw.saturating_add(1));
            assert(end == sat_sub(tw as int, sw + 1));
            concat(char_slice(text, 0, end), s)
        },
        Align::Center => {
            let p = align.calc(sw, tw);
            let head = concat(char_slice(text, 0, p), s);
            let from = p.saturating_add(sw);
            let tail = char_slice(text, from, usize::MAX);
            assert(char_range(text@, from as int, usize::MAX as int) == char_range(
                text@,
                p + sw,
                text@.len() as int,
            ));
            concat(head.as_str(), tail)
        },
    }
}

impl Clip {
    /// The marker that a cut gets, if any
    pub fn to_string(&self) -> (r: Option<String>)
        ensures
            match r {
                Some(m) => (*self is Ellipsis || *self is Custom) && m@ == marker_of(*self),
                None => !(*self is Ellipsis || *self is Custom),
            },
    {
        match self {
            Clip::Ellipsis => {
                let m = String::from_str("...");
                proof {
                    reveal_strlit("...");
                }
                Some(m)
            },
            Clip::Custom(s) => Some(s.clone()),
            _ => None,
        }
    }

    /// Fits `string` into `max_width` columns: unchanged if it fits or the
    /// policy is `NoClip`; empty under `Hide`; else cut at the side that
    /// `align` names (the front for `Start`, the back for `End`, the middle
    /// for `Center`) with the marker spliced in, cut again to `max_width`
    /// characters when there is a marker, and trimmed at the end until it is
    /// at most `max_width` columns wide.
    pub fn calc(&self, string: &str, max_width: usize, align: Align) -> (r: String)
        ensures
            r@ == clipped(*self, string@, max_width as int, align),
            !(*self is NoClip) && !(*self is Hide) ==> display_width(r@) <= max_width,
            *self is Hide && display_width(string@) > max_width ==> r@.len() == 0,
    {
        let w = str_width(string);
        let _n = string.unicode_len();
        if w <= max_width {
            return String::from_str(string);
        }
        match self {
            Clip::NoClip => {
                return String::from_str(string);
            },
            Clip::Hide => {
                return String::new();
            },
            _ => {},
        }
        let m = match self.to_string() {
            Some(m) => m,
            None => String::new(),
        };
        let mw = str_width(m.as_str());
        let keep = max_width.saturating_sub(mw);
        let cut = match align {
            Align::Start => {
                let from = w.saturating_sub(keep);
                let tail = char_slice(string, from, usize::MAX);
                assert(char_range(string@, from as int, usize::MAX as int) == char_range(
                    string@,
                    from as int,
                    string@.len() as int,
                ));
                concat(m.as_str(), tail)
            },
            Align::End => concat(char_slice(string, 0, keep), m.as_str()),
            Align::Center => {
                let left = max_width - max_width / 2;
                let right = max_width / 2;
                let from = w.saturating_sub(right);
                let tail = char_slice(string, from, usize::MAX);
                assert(char_range(string@, from as int, usize::MAX as int) == char_range(
                    string@,
                    from as int,
                    string@.len() as int,
                ));
                let joined = concat(char_slice(string, 0, left), tail);
                place_aligned(joined.as_str(), m.as_str(), Align::Center)
            },
        };
        let trimmed = if mw == 0 { cut } else { String::from_str(char_slice(cut.as_str(), 0, max_width)) };
        fit(trimmed.as_str(), max_width)
    }

    /// `calc` with the cut at the end
    pub fn calc_end(&self, string: &str, max_width: usize) -> (r: String)
        ensures
            r@ == clipped(*self, string@, max_width as int, Align::End),
    {
        self.calc(string, max_width, Align::End)
    }

    /// `calc` with the cut at the start
    pub fn calc_start(&self, string: &str, max_width: usize) -> (r: String)
        ensures
            r@ == clipped(*self, string@, max_width as int, Align::Start),
    {
        self.calc(string, max_width, Align::Start)
    }

    /// `calc` with the cut in the middle
    pub fn calc_center(&self, string: &str, max_width: usize) -> (r: String)
        ensures
            r@ == clipped(*self, string@, max_width as int, Align::Center),
    {
        self.calc(string, max_width, Align::Center)
    }
}

impl From<String> for Clip {
    /// A clip with a custom marker
    fn from(v: String) -> Self {
        Clip::Custom(v)
    }
}

impl vstd::std_specs::convert::FromSpecImpl<String> for Clip {
    open spec fn obeys_from_spec() -> bool {
        true
    }

    open spec fn from_spec(v: String) -> Self {
        Clip::Custom(v)
    }
}

} // verus!
