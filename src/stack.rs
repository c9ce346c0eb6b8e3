//! Distributing one extent of a rect among fixed, proportional and filling
//! size requests, with gaps and an overflow policy.
use vstd::prelude::*;
use crate::geometry::{clamp_value, min_int, sat_add16, sat_sub, Clamp, Direction};
use crate::rect::Rect;

verus! {

/// A request for space along one axis
#[derive(Debug, Clone, Copy, PartialEq, Eq, Structural)]
pub enum Length {
    /// A fixed size
    Value(u16),
    /// A percentage of the extent, within a clamp
    Factor(u16, Clamp<u16>),
    /// A share of what the other requests leave, within a clamp
    Fill(Clamp<u16>),
}

/// What happens to items that do not fit in the extent
#[derive(Debug, Clone, Copy, PartialEq, Eq, Structural)]
pub enum Overflow {
    /// Emit every item, wherever it ends
    Ignore,
    /// Cut the item that crosses the end; stop once an item starts past it
    Clip,
    /// Stop at the first item that would end past the end
    Prevent,
    /// Emit items that start within the extent, even if they spill; stop at
    /// the first that starts past it
    Skip,
}

/// Size that a percentage asks for.
pub open spec fn factor_size(extent: int, pct: int) -> int {
    extent * pct / 100
}

/// Sum of what the fixed and proportional requests among the first `k` ask for.
pub open spec fn asked_total(ls: Seq<Length>, extent: int, k: int) -> int
    decreases k,
{
    if k <= 0 {
        0
    } else {
        asked_total(ls, extent, k - 1) + match ls[k - 1] {
            Length::Value(n) => n as int,
            Length::Factor(p, _) => factor_size(extent, p as int),
            Length::Fill(_) => 0,
        }
    }
}

/// Room that the gaps between `n` items take.
pub open spec fn gaps(n: int, gap: int) -> int {
    if n > 0 { (n - 1) * gap } else { 0 }
}

/// What each fill request asks for: the room that the other requests and
/// the gaps leave.
pub open spec fn fill_request(ls: Seq<Length>, extent: int, gap: int) -> int {
    sat_sub(extent, asked_total(ls, extent, ls.len() as int) + gaps(ls.len() as int, gap))
}

/// The unclamped size of a request.
pub open spec fn requested(l: Length, extent: int, fill: int) -> int {
    match l {
        Length::Value(n) => n as int,
        Length::Factor(p, _) => factor_size(extent, p as int),
        Length::Fill(_) => fill,
    }
}

pub open spec fn clamp_of(l: Length) -> Clamp<u16> {
    match l {
        Length::Value(_) => Clamp::Unbounded,
        Length::Factor(_, c) => c,
        Length::Fill(c) => c,
    }
}

/// A proportional or filling request whose clamp accepts its unclamped size.
pub open spec fn stays_elastic(l: Length, extent: int, fill: int) -> bool {
    !(l is Value) && clamp_value(clamp_of(l), requested(l, extent, fill)) == requested(
        l,
        extent,
        fill,
    )
}

/// The size of a request that is not elastic: its value, or the clamp bound
/// that rejected its unclamped size.
pub open spec fn fixed_size(l: Length, extent: int, fill: int) -> int {
    clamp_value(clamp_of(l), requested(l, extent, fill))
}

/// Sum of the fixed sizes among the first `k` requests.
pub open spec fn fixed_sum(ls: Seq<Length>, extent: int, fill: int, k: int) -> int
    decreases k,
{
    if k <= 0 {
        0
    } else {
        fixed_sum(ls, extent, fill, k - 1) + if stays_elastic(ls[k - 1], extent, fill) {
            0
        } else {
            fixed_size(ls[k - 1], extent, fill)
        }
    }
}

/// Sum of the unclamped sizes of the elastic requests among the first `k`.
pub open spec fn elastic_sum(ls: Seq<Length>, extent: int, fill: int, k: int) -> int
    decreases k,
{
    if k <= 0 {
        0
    } else {
        elastic_sum(ls, extent, fill, k - 1) + if stays_elastic(ls[k - 1], extent, fill) {
            requested(ls[k - 1], extent, fill)
        } else {
            0
        }
    }
}

/// `req / total` of `room`, rounded half up; nothing when there is no room.
pub open spec fn share(req: int, room: int, total: int) -> int {
    if room <= 0 || total <= 0 { 0 } else { (2 * req * room + total) / (2 * total) }
}

/// The size that request `i` gets.
pub open spec fn solved_size(ls: Seq<Length>, extent: int, gap: int, i: int) -> int {
    let fill = fill_request(ls, extent, gap);
    let n = ls.len() as int;
    if stays_elastic(ls[i], extent, fill) {
        share(
            requested(ls[i], extent, fill),
            extent - (fixed_sum(ls, extent, fill, n) + gaps(n, gap)),
            elastic_sum(ls, extent, fill, n),
        )
    } else {
        fixed_size(ls[i], extent, fill)
    }
}

/// A slice of `rect` along `dir`, `start` into it and `size` long.
pub open spec fn slice_at(rect: Rect, dir: Direction, start: int, size: int) -> Rect {
    match dir {
        Direction::Horizontal => Rect {
            x: sat_add16(rect.x as int, start) as u16,
            width: size as u16,
            ..rect
        },
        Direction::Vertical => Rect {
            y: sat_add16(rect.y as int, start) as u16,
            height: size as u16,
            ..rect
        },
    }
}

/// The rects of requests `k..`, the first starting `start` into the extent.
pub open spec fn placed_from(
    ls: Seq<Length>,
    extent: int,
    gap: int,
    policy: Overflow,
    rect: Rect,
    dir: Direction,
    k: int,
    start: int,
) -> Seq<Rect>
    decreases ls.len() - k,
{
    if k < 0 || k >= ls.len() {
        seq![]
    } else {
        let size = solved_size(ls, extent, gap, k);
        let stop = match policy {
            Overflow::Ignore => false,
            Overflow::Clip => start > extent,
            Overflow::Prevent => start + size > extent,
            Overflow::Skip => start > extent,
        };
        if stop {
            seq![]
        } else {
            let shown = if policy is Clip { min_int(size, extent - start) } else { size };
            seq![slice_at(rect, dir, start, shown)] + placed_from(
                ls,
                extent,
                gap,
                policy,
                rect,
                dir,
                k + 1,
                start + size + gap,
            )
        }
    }
}

/// Space distribution along one axis of a rect
#[derive(Debug, Clone, PartialEq, Eq)]
pub struct Stack {
    pub lengths: Vec<Length>,
    pub direction: Direction,
    pub gap: u16,
    pub overflow: Overflow,
}

impl Stack {
    /// The requests, in order
    pub open spec fn lengths(&self) -> Seq<Length> {
        self.lengths@
    }

    /// A vertical stack with no gap that emits every item
    pub fn new(lengths: Vec<Length>) -> (r: Self)
        ensures
            r.lengths() == lengths@,
            r.direction == Direction::Vertical,
            r.gap == 0,
            r.overflow == Overflow::Ignore,
    {
        Stack { lengths, direction: Direction::Vertical, gap: 0, overflow: Overflow::Ignore }
    }

    /// A horizontal stack
    pub fn row(lengths: Vec<Length>) -> (r: Self)
        ensures
            r.lengths() == lengths@,
            r.direction == Direction::Horizontal,
            r.gap == 0,
            r.overflow == Overflow::Ignore,
    {
        Stack::new(lengths).direction(Direction::Horizontal)
    }

    /// A vertical stack
    pub fn col(lengths: Vec<Length>) -> (r: Self)
        ensures
            r.lengths() == lengths@,
            r.direction == Direction::Vertical,
            r.gap == 0,
            r.overflow == Overflow::Ignore,
    {
        Stack::new(lengths).direction(Direction::Vertical)
    }

    pub fn direction(self, dir: Direction) -> (r: Self)
        ensures
            r.lengths() == self.lengths(),
            r.direction == dir,
            r.gap == self.gap,
            r.overflow == self.overflow,
    {
        Stack { direction: dir, ..self }
    }

    /// Sets the gap between items
    pub fn gap(self, gap: u16) -> (r: Self)
        ensures
            r.lengths() == self.lengths(),
            r.direction == self.direction,
            r.gap == gap,
            r.overflow == self.overflow,
    {
        Stack { gap, ..self }
    }

    /// Sets the overflow policy
    pub fn overflow(self, overflow: Overflow) -> (r: Self)
        ensures
            r.lengths() == self.lengths(),
            r.direction == self.direction,
            r.gap == self.gap,
            r.overflow == overflow,
    {
        Stack { overflow, ..self }
    }
}

/// Extent of `rect` along `dir`.
pub open spec fn extent_of(rect: Rect, dir: Direction) -> int {
    match dir {
        Direction::Horizontal => rect.width as int,
        Direction::Vertical => rect.height as int,
    }
}

/// Bound on what one request can ask for: a percentage of at most `u16::MAX`
/// percent of at most `u16::MAX` columns.
pub open spec fn request_cap() -> int {
    4294967296
}

proof fn lemma_factor_bound(extent: int, pct: int)
    requires
        0 <= extent <= 65535,
        0 <= pct <= 65535,
    ensures
        0 <= factor_size(extent, pct) <= request_cap(),
{
    assert(0 <= extent * pct <= 65535 * 65535) by (nonlinear_arith)
        requires
            0 <= extent <= 65535,
            0 <= pct <= 65535,
    ;
}

proof fn lemma_requested_bound(l: Length, extent: int, fill: int)
    requires
        0 <= extent <= 65535,
        0 <= fill <= extent,
    ensures
        0 <= requested(l, extent, fill) <= request_cap(),
{
    if let Length::Factor(p, _) = l {
        lemma_factor_bound(extent, p as int);
    }
}

proof fn lemma_asked_bound(ls: Seq<Length>, extent: int, k: int)
    requires
        0 <= extent <= 65535,
        0 <= k <= ls.len(),
    ensures
        0 <= asked_total(ls, extent, k) <= k * request_cap(),
    decreases k,
{
    if k > 0 {
        lemma_asked_bound(ls, extent, k - 1);
        lemma_requested_bound(ls[k - 1], extent, 0);
    }
}

/// A rejected clamp yields one of its bounds, so a fixed size fits a `u16`.
proof fn lemma_fixed_size_bound(l: Length, extent: int, fill: int)
    requires
        0 <= extent <= 65535,
        0 <= fill <= extent,
        !stays_elastic(l, extent, fill),
    ensures
        0 <= fixed_size(l, extent, fill) <= 65535,
{
    lemma_requested_bound(l, extent, fill);
}

proof fn lemma_sums_bound(ls: Seq<Length>, extent: int, fill: int, k: int)
    requires
        0 <= extent <= 65535,
        0 <= fill <= extent,
        0 <= k <= ls.len(),
    ensures
        0 <= fixed_sum(ls, extent, fill, k) <= k * 65535,
        0 <= elastic_sum(ls, extent, fill, k) <= k * request_cap(),
    decreases k,
{
    if k > 0 {
        lemma_sums_bound(ls, extent, fill, k - 1);
        lemma_requested_bound(ls[k - 1], extent, fill);
        if !stays_elastic(ls[k - 1], extent, fill) {
            lemma_fixed_size_bound(ls[k - 1], extent, fill);
        }
    }
}

proof fn lemma_elastic_part(ls: Seq<Length>, extent: int, fill: int, i: int, k: int)
    requires
        0 <= extent <= 65535,
        0 <= fill <= extent,
        0 <= i < k <= ls.len(),
        stays_elastic(ls[i], extent, fill),
    ensures
        requested(ls[i], extent, fill) <= elastic_sum(ls, extent, fill, k),
    decreases k,
{
    lemma_sums_bound(ls, extent, fill, k - 1);
    lemma_requested_bound(ls[k - 1], extent, fill);
    if i < k - 1 {
        lemma_elastic_part(ls, extent, fill, i, k - 1);
    }
}

proof fn lemma_share_bound(req: int, room: int, total: int)
    requires
        0 <= req <= total,
        0 <= room,
    ensures
        0 <= share(req, room, total) <= room,
{
    if room > 0 && total > 0 {
        assert(2 * req * room + total < 2 * total * (room + 1)) by (nonlinear_arith)
            requires
                0 <= req <= total,
                0 < total,
                0 < room,
        ;
        assert((2 * req * room + total) / (2 * total) <= room) by (nonlinear_arith)
            requires
                2 * req * room + total < 2 * total * (room + 1),
                0 < total,
                0 <= req,
                0 <= room,
        ;
        assert(0 <= (2 * req * room + total) / (2 * total)) by (nonlinear_arith)
            requires
                0 < total,
                0 <= req,
                0 <= room,
        ;
    }
}

fn requested_of(l: Length, extent: u128, fill: u128) -> (r: u128)
    requires
        extent <= 65535,
        fill <= extent,
    ensures
        r == requested(l, extent as int, fill as int),
        r <= request_cap(),
{
    proof {
        lemma_requested_bound(l, extent as int, fill as int);
    }
    match l {
        Length::Value(n) => n as u128,
        Length::Factor(p, _) => {
            proof {
                lemma_factor_bound(extent as int, p as int);
            }
            extent * p as u128 / 100
        },
        Length::Fill(_) => fill,
    }
}

fn clamp_u128(c: Clamp<u16>, v: u128) -> (r: u128)
    ensures
        r == clamp_value(c, v as int),
{
    let lo = match c.min() {
        Some(n) => if v < n as u128 { n as u128 } else { v },
        None => v,
    };
    match c.max() {
        Some(x) => if lo > x as u128 { x as u128 } else { lo },
        None => lo,
    }
}

fn clamp_of_length(l: Length) -> (r: Clamp<u16>)
    ensures
        r == clamp_of(l),
{
    match l {
        Length::Value(_) => Clamp::Unbounded,
        Length::Factor(_, c) => c,
        Length::Fill(c) => c,
    }
}

impl Stack {
    /// Solves the requests against the extent of `rect` along the stack's
    /// direction and lays the items out in order, a gap apart.
    ///
    /// Proportional and filling requests whose clamp rejects their unclamped
    /// size become fixed at the bound; the others share what the fixed sizes
    /// and gaps leave, in proportion to what they asked for (rounded). The
    /// overflow policy then decides which items are emitted.
    pub fn calc(self, rect: Rect) -> (r: Vec<Rect>)
        ensures
            r@ == placed_from(
                self.lengths@,
                extent_of(rect, self.direction),
                self.gap as int,
                self.overflow,
                rect,
                self.direction,
                0,
                0,
            ),
    {
        let ls = &self.lengths;
        let ghost lsv = ls@;
        let n = ls.len();
        let extent: u128 = match self.direction {
            Direction::Horizontal => rect.width as u128,
            Direction::Vertical => rect.height as u128,
        };
        let ghost e = extent as int;
        let g: u128 = self.gap as u128;
        // what the fixed and proportional requests ask for
        let mut asked: u128 = 0;
        let mut i: usize = 0;
        while i < n
            invariant
                n == lsv.len() <= usize::MAX,
                extent <= 65535,
                e == extent as int,
                ls@ == lsv,
                i <= n,
                asked == asked_total(lsv, e, i as int),
                asked <= i * request_cap(),
            decreases n - i,
        {
            let l = ls[i];
            let add: u128 = match l {
                Length::Fill(_) => 0,
                _ => requested_of(l, extent, 0),
            };
            asked = asked + add;
            i = i + 1;
        }
        assert(asked <= usize::MAX * request_cap()) by (nonlinear_arith)
            requires
                asked <= i * request_cap(),
                i <= usize::MAX,
        ;
        assert((n - 1) * g <= usize::MAX * 65535) by (nonlinear_arith)
            requires
                n <= usize::MAX,
                g <= 65535,
        ;
        let gap_total: u128 = if n > 0 { (n as u128 - 1) * g } else { 0 };
        assert(gap_total == gaps(n as int, g as int));
        let fill: u128 = if extent > asked + gap_total { extent - (asked + gap_total) } else { 0 };
        assert(fill == fill_request(lsv, e, g as int));
        // split the requests into fixed and elastic ones
        let mut fixed: u128 = 0;
        let mut elastic: u128 = 0;
        let mut j: usize = 0;
        while j < n
            invariant
                n == lsv.len() <= usize::MAX,
                extent <= 65535,
                e == extent as int,
                fill <= extent,
                ls@ == lsv,
                j <= n,
                fixed == fixed_sum(lsv, e, fill as int, j as int),
                elastic == elastic_sum(lsv, e, fill as int, j as int),
            decreases n - j,
        {
            proof {
                lemma_sums_bound(lsv, e, fill as int, j as int);
            }
            let l = ls[j];
            let req = requested_of(l, extent, fill);
            let clamped = clamp_u128(clamp_of_length(l), req);
            let elastic_here = match l {
                Length::Value(_) => false,
                _ => clamped == req,
            };
            if elastic_here {
                elastic = elastic + req;
            } else {
                fixed = fixed + clamped;
            }
            j = j + 1;
        }
        proof {
            lemma_sums_bound(lsv, e, fill as int, n as int);
        }
        assert(fixed <= usize::MAX * 65535) by (nonlinear_arith)
            requires
                fixed <= n * 65535,
                n <= usize::MAX,
        ;
        let used = fixed + gap_total;
        let room: u128 = if extent > used { extent - used } else { 0 };
        // lay the items out
        let mut rects: Vec<Rect> = Vec::new();
        let mut start: u128 = 0;
        let mut k: usize = 0;
        let ghost whole = placed_from(lsv, e, g as int, self.overflow, rect, self.direction, 0, 0);
        while k < n
            invariant
                n == lsv.len() <= usize::MAX,
                extent <= 65535,
                e == extent as int,
                lsv == self.lengths@,
                fill <= extent,
                fill == fill_request(lsv, e, g as int),
                g == self.gap,
                e == extent_of(rect, self.direction),
                ls@ == lsv,
                k <= n,
                fixed == fixed_sum(lsv, e, fill as int, n as int),
                elastic == elastic_sum(lsv, e, fill as int, n as int),
                room == sat_sub(e, fixed + gaps(n as int, g as int)),
                room <= 65535,
                elastic <= n * request_cap(),
                start <= k * 131070,
                whole == placed_from(lsv, e, g as int, self.overflow, rect, self.direction, 0, 0),
                rects@ + placed_from(
                    lsv,
                    e,
                    g as int,
                    self.overflow,
                    rect,
                    self.direction,
                    k as int,
                    start as int,
                ) == whole,
            decreases n - k,
        {
            let l = ls[k];
            let req = requested_of(l, extent, fill);
            let clamped = clamp_u128(clamp_of_length(l), req);
            let elastic_here = match l {
                Length::Value(_) => false,
                _ => clamped == req,
            };
            let size: u128 = if elastic_here {
                proof {
                    lemma_elastic_part(lsv, e, fill as int, k as int, n as int);
                    lemma_share_bound(req as int, room as int, elastic as int);
                    assert((2 * req) * room <= 2 * request_cap() * 65535) by (nonlinear_arith)
                        requires
                            req <= request_cap(),
                            room <= 65535,
                    ;
                    assert(elastic <= usize::MAX * request_cap()) by (nonlinear_arith)
                        requires
                            elastic <= n * request_cap(),
                            n <= usize::MAX,
                    ;
                }
                if room == 0 || elastic == 0 {
                    0
                } else {
                    ((2 * req) * room + elastic) / (2 * elastic)
                }
            } else {
                proof {
                    lemma_fixed_size_bound(l, e, fill as int);
                }
                clamped
            };
            assert(size == solved_size(lsv, e, g as int, k as int));
            assert(size <= 65535);
            let stop = match self.overflow {
                Overflow::Ignore => false,
                Overflow::Clip => start > extent,
                Overflow::Prevent => start + size > extent,
                Overflow::Skip => start > extent,
            };
            if stop {
                assert(placed_from(
                    lsv,
                    e,
                    g as int,
                    self.overflow,
                    rect,
                    self.direction,
                    k as int,
                    start as int,
                ) == Seq::<Rect>::empty());
                assert(rects@ + Seq::<Rect>::empty() =~= rects@);
                return rects;
            }
            let shown: u128 = match self.overflow {
                Overflow::Clip => if size < extent - start { size } else { extent - start },
                _ => size,
            };
            let at: u16 = if start > 65535 { 65535 } else { start as u16 };
            let piece = match self.direction {
                Direction::Horizontal => Rect {
                    x: rect.x.saturating_add(at),
                    width: shown as u16,
                    ..rect
                },
                Direction::Vertical => Rect {
                    y: rect.y.saturating_add(at),
                    height: shown as u16,
                    ..rect
                },
            };
            assert(piece == slice_at(
                rect,
                self.direction,
                start as int,
                if self.overflow is Clip { min_int(size as int, e - start) } else { size as int },
            ));
            let ghost before = rects@;
            rects.push(piece);
            assert(rects@ == before + seq![piece]);
            assert(before + (seq![piece] + placed_from(
                lsv,
                e,
                g as int,
                self.overflow,
                rect,
                self.direction,
                k + 1,
                start + size + g,
            )) =~= rects@ + placed_from(
                lsv,
                e,
                g as int,
                self.overflow,
                rect,
                self.direction,
                k + 1,
                start + size + g,
            ));
            start = start + size + g;
            k = k + 1;
        }
        assert(rects@ + Seq::<Rect>::empty() =~= rects@);
        rects
    }
}

} // verus!
