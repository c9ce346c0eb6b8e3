//! Pure position and size arithmetic: margins, alignment, clamps and rects.
//! Everything saturates instead of overflowing or going below zero.
use vstd::prelude::*;

verus! {

/// `a - b`, or 0 when `b` is larger.
pub open spec fn sat_sub(a: int, b: int) -> int {
    if a > b { a - b } else { 0 }
}

/// `a + b`, or the largest `u16` when the sum does not fit.
pub open spec fn sat_add16(a: int, b: int) -> int {
    if a + b > u16::MAX { u16::MAX as int } else { a + b }
}

pub open spec fn min_int(a: int, b: int) -> int {
    if a < b { a } else { b }
}

pub open spec fn max_int(a: int, b: int) -> int {
    if a > b { a } else { b }
}



/// A position `(x, y)` with saturating arithmetic
pub trait Point: Sized {
    /// The position as `(x, y)`.
    spec fn coords(self) -> (u16, u16);

    fn x(self) -> (r: u16)
        ensures
            r == self.coords().0,
    ;

    fn y(self) -> (r: u16)
        ensures
            r == self.coords().1,
    ;

    /// Component-wise sum, saturating
    fn add(self, rhs: Self) -> (r: Self)
        ensures
            r.coords().0 == sat_add16(self.coords().0 as int, rhs.coords().0 as int),
            r.coords().1 == sat_add16(self.coords().1 as int, rhs.coords().1 as int),
    ;

    /// Component-wise difference, floored at 0
    fn sub(self, rhs: Self) -> (r: Self)
        ensures
            r.coords().0 == sat_sub(self.coords().0 as int, rhs.coords().0 as int),
            r.coords().1 == sat_sub(self.coords().1 as int, rhs.coords().1 as int),
    ;

    /// Both components multiplied by `value`, saturating
    fn mul(self, value: u16) -> (r: Self)
        ensures
            r.coords().0 == min_int(self.coords().0 * value, u16::MAX as int),
            r.coords().1 == min_int(self.coords().1 * value, u16::MAX as int),
    ;

    /// Both components divided by `value`
    fn div(self, value: u16) -> (r: Self)
        requires
            value > 0,
        ensures
            r.coords().0 == self.coords().0 / value,
            r.coords().1 == self.coords().1 / value,
    ;
}

fn mul_sat(a: u16, b: u16) -> (r: u16)
    ensures
        r == min_int(a * b, u16::MAX as int),
{
    assert(a as u32 * b as u32 <= 65535 * 65535) by (nonlinear_arith)
        requires
            a <= 65535,
            b <= 65535,
    ;
    let p = a as u32 * b as u32;
    if p > u16::MAX as u32 {
        u16::MAX
    } else {
        p as u16
    }
}

impl Point for (u16, u16) {
    open spec fn coords(self) -> (u16, u16) {
        self
    }

    fn x(self) -> (r: u16) {
        self.0
    }

    fn y(self) -> (r: u16) {
        self.1
    }

    fn add(self, rhs: Self) -> (r: Self) {
        (self.0.saturating_add(rhs.0), self.1.saturating_add(rhs.1))
    }

    fn sub(self, rhs: Self) -> (r: Self) {
        (self.0.saturating_sub(rhs.0), self.1.saturating_sub(rhs.1))
    }

    fn mul(self, value: u16) -> (r: Self) {
        (mul_sat(self.0, value), mul_sat(self.1, value))
    }

    fn div(self, value: u16) -> (r: Self) {
        (self.0 / value, self.1 / value)
    }
}

/// Margin `(left, top, right, bottom)`
#[derive(Debug, Clone, Copy, PartialEq, Eq, Structural)]
pub struct Margin(pub u16, pub u16, pub u16, pub u16);

impl Margin {
    /// The `left` side
    pub fn left(&self) -> (r: u16)
        ensures
            r == self.0,
    {
        self.0
    }

    /// The `top` side
    pub fn top(&self) -> (r: u16)
        ensures
            r == self.1,
    {
        self.1
    }

    /// The `right` side
    pub fn right(&self) -> (r: u16)
        ensures
            r == self.2,
    {
        self.2
    }

    /// The `bottom` side
    pub fn bottom(&self) -> (r: u16)
        ensures
            r == self.3,
    {
        self.3
    }

    /// Horizontal sides `(left, right)`
    pub fn hor(&self) -> (r: (u16, u16))
        ensures
            r == (self.0, self.2),
    {
        (self.left(), self.right())
    }

    /// Vertical sides `(top, bottom)`
    pub fn ver(&self) -> (r: (u16, u16))
        ensures
            r == (self.1, self.3),
    {
        (self.top(), self.bottom())
    }
}

impl From<u16> for Margin {
    /// The same margin on all four sides
    fn from(v: u16) -> Self {
        Margin(v, v, v, v)
    }
}

impl vstd::std_specs::convert::FromSpecImpl<u16> for Margin {
    open spec fn obeys_from_spec() -> bool {
        true
    }

    open spec fn from_spec(v: u16) -> Self {
        Margin(v, v, v, v)
    }
}

impl From<(u16, u16)> for Margin {
    /// `(horizontal, vertical)`
    fn from(v: (u16, u16)) -> Self {
        Margin(v.0, v.1, v.0, v.1)
    }
}

impl vstd::std_specs::convert::FromSpecImpl<(u16, u16)> for Margin {
    open spec fn obeys_from_spec() -> bool {
        true
    }

    open spec fn from_spec(v: (u16, u16)) -> Self {
        Margin(v.0, v.1, v.0, v.1)
    }
}

impl From<(u16, u16, u16, u16)> for Margin {
    /// `(left, top, right, bottom)`
    fn from(v: (u16, u16, u16, u16)) -> Self {
        Margin(v.0, v.1, v.2, v.3)
    }
}

impl vstd::std_specs::convert::FromSpecImpl<(u16, u16, u16, u16)> for Margin {
    open spec fn obeys_from_spec() -> bool {
        true
    }

    open spec fn from_spec(v: (u16, u16, u16, u16)) -> Self {
        Margin(v.0, v.1, v.2, v.3)
    }
}

/// Placement of a smaller extent inside a larger one.
#[derive(Debug, Clone, Copy, PartialEq, Eq, Structural)]
pub enum Align {
    Start,
    Center,
    End,
}

impl Default for Align {
    fn default() -> (r: Self)
        ensures
            r == Align::Start,
    {
        Align::Start
    }
}

/// Offset of a `target` extent aligned inside an `inside` extent. The center
/// offset is half the free space, rounded half up.
pub open spec fn align_offset(align: Align, target: int, inside: int) -> int {
    if target == 0 || inside == 0 {
        0
    } else {
        match align {
            Align::Start => 0,
            Align::Center => if inside > target { (inside - target + 1) / 2 } else { 0 },
            Align::End => sat_sub(inside, target),
        }
    }
}

impl Align {
    /// Offset of `target` aligned inside `inside`: 0 at the start, the free
    /// space at the end, half of it (rounded) in the center; 0 whenever either
    /// extent is 0 or `target` does not fit.
    pub fn calc(&self, target: usize, inside: usize) -> (r: usize)
        ensures
            r == align_offset(*self, target as int, inside as int),
            r <= inside,
            target <= inside ==> r + target <= inside,
    {
        if target == 0 || inside == 0 {
            return 0;
        }
        match self {
            Align::Start => 0,
            Align::Center => if inside > target {
                (inside - target) / 2 + (inside - target) % 2
            } else {
                0
            },
            Align::End => inside.saturating_sub(target),
        }
    }
}

/// Horizontal and vertical alignment
#[derive(Debug, Clone, Copy, PartialEq, Eq, Structural)]
pub struct AxisAlign(pub Align, pub Align);

impl AxisAlign {
    /// Position of a `target` size aligned inside an `inside` size.
    pub fn calc(&self, target: (u16, u16), inside: (u16, u16)) -> (r: (u16, u16))
        ensures
            r.0 == align_offset(self.0, target.0 as int, inside.0 as int),
            r.1 == align_offset(self.1, target.1 as int, inside.1 as int),
    {
        let x = self.hor().calc(target.0 as usize, inside.0 as usize);
        let y = self.ver().calc(target.1 as usize, inside.1 as usize);
        (x as u16, y as u16)
    }

    pub fn hor(self) -> (r: Align)
        ensures
            r == self.0,
    {
        self.0
    }

    pub fn ver(self) -> (r: Align)
        ensures
            r == self.1,
    {
        self.1
    }
}

impl From<Align> for AxisAlign {
    fn from(v: Align) -> Self {
        AxisAlign(v, v)
    }
}

impl vstd::std_specs::convert::FromSpecImpl<Align> for AxisAlign {
    open spec fn obeys_from_spec() -> bool {
        true
    }

    open spec fn from_spec(v: Align) -> Self {
        AxisAlign(v, v)
    }
}

impl From<(Align, Align)> for AxisAlign {
    fn from(v: (Align, Align)) -> Self {
        AxisAlign(v.0, v.1)
    }
}

impl vstd::std_specs::convert::FromSpecImpl<(Align, Align)> for AxisAlign {
    open spec fn obeys_from_spec() -> bool {
        true
    }

    open spec fn from_spec(v: (Align, Align)) -> Self {
        AxisAlign(v.0, v.1)
    }
}

/// Direction
#[derive(Debug, Clone, Copy, PartialEq, Eq, Structural)]
pub enum Direction {
    Horizontal,
    Vertical,
}

/// Side of a box, in the order of a border glyph set
#[derive(Debug, Clone, Copy, PartialEq, Eq, Structural)]
pub enum Side {
    Left,
    TopLeft,
    Top,
    TopRight,
    Right,
    BottomRight,
    Bottom,
    BottomLeft,
}

/// Position of a side in a border glyph set.
pub open spec fn side_index(side: Side) -> int {
    match side {
        Side::Left => 0,
        Side::TopLeft => 1,
        Side::Top => 2,
        Side::TopRight => 3,
        Side::Right => 4,
        Side::BottomRight => 5,
        Side::Bottom => 6,
        Side::BottomLeft => 7,
    }
}

/// The side at a position of a border glyph set; `Left` past the end.
pub open spec fn side_at(index: int) -> Side {
    if index == 1 { Side::TopLeft }
    else if index == 2 { Side::Top }
    else if index == 3 { Side::TopRight }
    else if index == 4 { Side::Right }
    else if index == 5 { Side::BottomRight }
    else if index == 6 { Side::Bottom }
    else if index == 7 { Side::BottomLeft }
    else { Side::Left }
}

impl Side {
    /// Position of this side in a border glyph set
    pub fn index(self) -> (r: usize)
        ensures
            r == side_index(self),
            r < 8,
    {
        match self {
            Side::Left => 0,
            Side::TopLeft => 1,
            Side::Top => 2,
            Side::TopRight => 3,
            Side::Right => 4,
            Side::BottomRight => 5,
            Side::Bottom => 6,
            Side::BottomLeft => 7,
        }
    }
}

impl From<usize> for Side {
    fn from(v: usize) -> Self {
        match v {
            1 => Side::TopLeft,
            2 => Side::Top,
            3 => Side::TopRight,
            4 => Side::Right,
            5 => Side::BottomRight,
            6 => Side::Bottom,
            7 => Side::BottomLeft,
            _ => Side::Left,
        }
    }
}

impl vstd::std_specs::convert::FromSpecImpl<usize> for Side {
    open spec fn obeys_from_spec() -> bool {
        true
    }

    open spec fn from_spec(v: usize) -> Self {
        side_at(v as int)
    }
}

/// An optional lower and upper bound
#[derive(Debug, Clone, Copy, PartialEq, Eq, Structural)]
pub enum Clamp<T = u16> {
    Unbounded,
    Min(T),
    Max(T),
    MinMax(T, T),
}

impl<T> Clamp<T> {
    pub fn new(min: Option<T>, max: Option<T>) -> (r: Self)
        ensures
            r == (match (min, max) {
                (None, None) => Clamp::Unbounded,
                (Some(n), None) => Clamp::Min(n),
                (None, Some(x)) => Clamp::Max(x),
                (Some(n), Some(x)) => Clamp::MinMax(n, x),
            }),
    {
        match (min, max) {
            (None, None) => Clamp::Unbounded,
            (Some(n), None) => Clamp::Min(n),
            (None, Some(x)) => Clamp::Max(x),
            (Some(n), Some(x)) => Clamp::MinMax(n, x),
        }
    }

    pub open spec fn min_spec(self) -> Option<T> {
        match self {
            Clamp::Min(n) => Some(n),
            Clamp::MinMax(n, _) => Some(n),
            _ => None,
        }
    }

    pub open spec fn max_spec(self) -> Option<T> {
        match self {
            Clamp::Max(x) => Some(x),
            Clamp::MinMax(_, x) => Some(x),
            _ => None,
        }
    }

    /// The lower bound, if any
    pub fn min(self) -> (r: Option<T>)
        ensures
            r == self.min_spec(),
    {
        match self {
            Clamp::Min(n) => Some(n),
            Clamp::MinMax(n, _) => Some(n),
            _ => None,
        }
    }

    /// The upper bound, if any
    pub fn max(self) -> (r: Option<T>)
        ensures
            r == self.max_spec(),
    {
        match self {
            Clamp::Max(x) => Some(x),
            Clamp::MinMax(_, x) => Some(x),
            _ => None,
        }
    }

    /// Sets the lower bound, keeping the upper one
    pub fn set_min(self, min: T) -> (r: Self)
        ensures
            r.min_spec() == Some(min),
            r.max_spec() == self.max_spec(),
    {
        match self {
            Clamp::MinMax(_, x) => Clamp::MinMax(min, x),
            Clamp::Max(x) => Clamp::MinMax(min, x),
            _ => Clamp::Min(min),
        }
    }

    /// Sets the upper bound, keeping the lower one
    pub fn set_max(self, max: T) -> (r: Self)
        ensures
            r.min_spec() == self.min_spec(),
            r.max_spec() == Some(max),
    {
        match self {
            Clamp::MinMax(n, _) => Clamp::MinMax(n, max),
            Clamp::Min(n) => Clamp::MinMax(n, max),
            _ => Clamp::Max(max),
        }
    }
}

impl<T> Default for Clamp<T> {
    fn default() -> (r: Self)
        ensures
            r == Clamp::<T>::Unbounded,
    {
        Clamp::Unbounded
    }
}

/// `value` raised to the lower bound, then lowered to the upper bound.
pub open spec fn clamp_value(c: Clamp<u16>, value: int) -> int {
    let lo = match c.min_spec() { Some(n) => max_int(value, n as int), None => value };
    match c.max_spec() { Some(x) => min_int(lo, x as int), None => lo }
}

impl Clamp<u16> {
    /// Clamps `value` into the bounds; with a lower bound above the upper
    /// one, the upper bound wins.
    pub fn calc(self, value: u16) -> (r: u16)
        ensures
            r == clamp_value(self, value as int),
    {
        let lo = match self.min() {
            Some(n) => if value < n { n } else { value },
            None => value,
        };
        match self.max() {
            Some(x) => if lo > x { x } else { lo },
            None => lo,
        }
    }

    /// Whether `value` lies strictly between the bounds that are set
    pub fn in_bounds(&self, value: u16) -> (r: bool)
        ensures
            r == ((self.min_spec() matches Some(n) ==> value > n)
                && (self.max_spec() matches Some(x) ==> value < x)),
    {
        match self {
            Clamp::Unbounded => true,
            Clamp::Min(n) => value > *n,
            Clamp::Max(x) => value < *x,
            Clamp::MinMax(n, x) => value > *n && value < *x,
        }
    }
}

impl From<()> for Clamp<u16> {
    fn from(v: ()) -> Self {
        Clamp::Unbounded
    }
}

impl vstd::std_specs::convert::FromSpecImpl<()> for Clamp<u16> {
    open spec fn obeys_from_spec() -> bool {
        true
    }

    open spec fn from_spec(v: ()) -> Self {
        Clamp::Unbounded
    }
}

impl From<(u16, u16)> for Clamp<u16> {
    fn from(v: (u16, u16)) -> Self {
        Clamp::MinMax(v.0, v.1)
    }
}

impl vstd::std_specs::convert::FromSpecImpl<(u16, u16)> for Clamp<u16> {
    open spec fn obeys_from_spec() -> bool {
        true
    }

    open spec fn from_spec(v: (u16, u16)) -> Self {
        Clamp::MinMax(v.0, v.1)
    }
}

} // verus!
