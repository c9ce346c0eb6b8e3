//! Text measurement and slicing, backed by the Unicode crates.
use vstd::prelude::*;
use stringslice::StringSlice;
use unicode_segmentation::UnicodeSegmentation;
use unicode_width::UnicodeWidthStr;

verus! {

/// Terminal columns that a string occupies, as measured by `unicode-width`.
pub uninterp spec fn display_width(s: Seq<char>) -> nat;

/// Extended grapheme clusters of a string, as split by `unicode-segmentation`.
pub uninterp spec fn graphemes_of(s: Seq<char>) -> Seq<Seq<char>>;

/// A printable ASCII character: from the space to the tilde.
pub open spec fn is_printable_ascii(c: char) -> bool {
    ' ' <= c <= '~'
}

pub open spec fn all_printable_ascii(s: Seq<char>) -> bool {
    forall|i: int| 0 <= i < s.len() ==> is_printable_ascii(#[trigger] s[i])
}

/// Relies on `unicode_width::UnicodeWidthStr::width`: the display width of a
/// string depends on its characters alone; the empty string is 0 columns wide,
/// and each printable ASCII character takes one column (no ligature rule of the
/// crate involves such characters).
#[verifier::external_body]
pub(crate) fn str_width(s: &str) -> (r: usize)
    ensures
        r as nat == display_width(s@),
        s@.len() == 0 ==> r == 0,
        all_printable_ascii(s@) ==> r == s@.len(),
{
    s.width()
}

/// The characters of each string of a list.
pub open spec fn views_of(v: Seq<String>) -> Seq<Seq<char>> {
    v.map_values(|g: String| g@)
}

/// The characters of a list of clusters, in order.
pub open spec fn join(gs: Seq<Seq<char>>) -> Seq<char>
    decreases gs.len(),
{
    if gs.len() == 0 {
        Seq::empty()
    } else {
        join(gs.drop_last()) + gs.last()
    }
}

/// Relies on `unicode_segmentation::UnicodeSegmentation::graphemes` (extended
/// clusters): the clusters depend on the characters alone; they are the
/// consecutive non-empty slices `string[start..next]` between boundaries, so
/// none is empty and together they are the string; the empty string has none.
#[verifier::external_body]
pub(crate) fn graphemes(s: &str) -> (r: Vec<String>)
    ensures
        views_of(r@) == graphemes_of(s@),
        s@.len() == 0 ==> r@.len() == 0,
        join(views_of(r@)) == s@,
        forall|i: int| 0 <= i < r@.len() ==> (#[trigger] r@[i])@.len() > 0,
{
    s.graphemes(true).map(|g| g.to_string()).collect()
}

/// The characters of `s` from `begin` to `end`, both clamped to its length.
pub open spec fn char_range(s: Seq<char>, begin: int, end: int) -> Seq<char> {
    let b = if begin < s.len() { begin } else { s.len() as int };
    let e = if end < s.len() { end } else { s.len() as int };
    s.subrange(b, e)
}

/// Relies on `stringslice::StringSlice::substring`: slices by character
/// positions, clamping both ends to the length; it panics when `begin > end`.
#[verifier::external_body]
pub(crate) fn char_slice<'a>(s: &'a str, begin: usize, end: usize) -> (r: &'a str)
    requires
        begin <= end,
    ensures
        r@ == char_range(s@, begin as int, end as int),
{
    s.substring(begin, end)
}

/// Relies on `ToString::to_string` for `char`: a string of that one character.
#[verifier::external_body]
pub(crate) fn char_to_string(c: char) -> (r: String)
    ensures
        r@ == seq![c],
{
    c.to_string()
}

/// Clusters `..k` and `k..` join to the whole.
pub proof fn lemma_join_split(gs: Seq<Seq<char>>, k: int)
    requires
        0 <= k <= gs.len(),
    ensures
        join(gs) == join(gs.take(k)) + join(gs.skip(k)),
    decreases gs.len(),
{
    if k == gs.len() {
        assert(gs.take(k) =~= gs);
        assert(gs.skip(k) =~= Seq::<Seq<char>>::empty());
        assert(join(gs) + Seq::<char>::empty() =~= join(gs));
    } else {
        let dl = gs.drop_last();
        lemma_join_split(dl, k);
        assert(dl.take(k) =~= gs.take(k));
        assert(gs.skip(k).drop_last() =~= dl.skip(k));
        assert(gs.skip(k).last() == gs.last());
        assert(join(gs.take(k)) + (join(dl.skip(k)) + gs.last()) =~= (join(gs.take(k)) + join(
            dl.skip(k),
        )) + gs.last());
    }
}

/// The first `k + 1` clusters are the first `k` and cluster `k`.
pub proof fn lemma_join_take_step(gs: Seq<Seq<char>>, k: int)
    requires
        0 <= k < gs.len(),
    ensures
        join(gs.take(k + 1)) == join(gs.take(k)) + gs[k],
{
    assert(gs.take(k + 1).drop_last() =~= gs.take(k));
}

/// With no empty cluster, `k` clusters hold at least `k` characters.
pub proof fn lemma_join_take_len(gs: Seq<Seq<char>>, k: int)
    requires
        0 <= k <= gs.len(),
        forall|i: int| 0 <= i < gs.len() ==> (#[trigger] gs[i]).len() > 0,
    ensures
        join(gs.take(k)).len() >= k,
    decreases k,
{
    if k > 0 {
        lemma_join_take_len(gs, k - 1);
        lemma_join_take_step(gs, k - 1);
    } else {
        assert(gs.take(0) =~= Seq::<Seq<char>>::empty());
    }
}

/// Character `join(gs.take(b)).len()` of the joined clusters is the first
/// character of cluster `b`.
pub proof fn lemma_join_at(gs: Seq<Seq<char>>, b: int)
    requires
        0 <= b < gs.len(),
        gs[b].len() > 0,
    ensures
        join(gs.take(b)).len() < join(gs).len(),
        join(gs)[join(gs.take(b)).len() as int] == gs[b][0],
{
    lemma_join_split(gs, b + 1);
    lemma_join_take_step(gs, b);
    let pre = join(gs.take(b));
    assert(join(gs)[pre.len() as int] == (pre + gs[b])[pre.len() as int]);
}

} // verus!
