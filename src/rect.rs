//! Axis-aligned integer rectangles: the unit of all layout addressing.
use vstd::prelude::*;
use crate::geometry::{
    align_offset, max_int, min_int, sat_add16, sat_sub, Align, AxisAlign, Margin,
};

verus! {

/// Rectangle at `(x, y)` of size `width` x `height`
#[derive(Debug, Clone, Copy, PartialEq, Eq, Structural)]
pub struct Rect {
    pub x: u16,
    pub y: u16,
    pub width: u16,
    pub height: u16,
}

/// `a - b` on `u16` values, floored at 0.
fn sub_floor(a: u16, b: u32) -> (r: u16)
    ensures
        r == sat_sub(a as int, b as int),
{
    if (a as u32) > b {
        (a as u32 - b) as u16
    } else {
        0
    }
}

/// The last column or row of an extent: `start + len - 1`, saturating at both ends.
pub open spec fn last_of(start: int, len: int) -> int {
    sat_sub(sat_add16(start, len), 1)
}

/// A rect shrunk by a margin: the corner moves right and down by the left and
/// top sides, and the size loses both sides of each axis, saturating at 0.
pub open spec fn margined(r: Rect, m: Margin) -> Rect {
    Rect {
        x: sat_add16(r.x as int, m.0 as int) as u16,
        y: sat_add16(r.y as int, m.1 as int) as u16,
        width: sat_sub(r.width as int, m.0 + m.2) as u16,
        height: sat_sub(r.height as int, m.1 + m.3) as u16,
    }
}

impl Rect {
    pub fn new(x: u16, y: u16, width: u16, height: u16) -> (r: Self)
        ensures
            r == (Rect { x, y, width, height }),
    {
        Rect { x, y, width, height }
    }

    /// A rect of the given size at the origin
    pub fn sized(width: u16, height: u16) -> (r: Self)
        ensures
            r == (Rect { x: 0, y: 0, width, height }),
    {
        Rect::new(0, 0, width, height)
    }

    /// Shrinks the rect by a margin on each side; the size saturates at 0.
    pub fn margin(self, margin: Margin) -> (r: Self)
        ensures
            r == margined(self, margin),
    {
        Rect {
            x: self.x.saturating_add(margin.left()),
            y: self.y.saturating_add(margin.top()),
            width: sub_floor(self.width, margin.right() as u32 + margin.left() as u32),
            height: sub_floor(self.height, margin.bottom() as u32 + margin.top() as u32),
        }
    }

    /// Moves the left edge right by `value` and takes twice that off the width
    pub fn margin_left(self, value: u16) -> (r: Self)
        ensures
            r == (Rect {
                x: sat_add16(self.x as int, value as int) as u16,
                width: sat_sub(self.width as int, 2 * value) as u16,
                ..self
            }),
    {
        Rect {
            x: self.x.saturating_add(value),
            width: sub_floor(self.width, 2 * value as u32),
            ..self
        }
    }

    /// Moves the top edge down by `value` and takes twice that off the height
    pub fn margin_top(self, value: u16) -> (r: Self)
        ensures
            r == (Rect {
                y: sat_add16(self.y as int, value as int) as u16,
                height: sat_sub(self.height as int, 2 * value) as u16,
                ..self
            }),
    {
        Rect {
            y: self.y.saturating_add(value),
            height: sub_floor(self.height, 2 * value as u32),
            ..self
        }
    }

    /// Takes `value` off the width
    pub fn margin_right(self, value: u16) -> (r: Self)
        ensures
            r == (Rect { width: sat_sub(self.width as int, value as int) as u16, ..self }),
    {
        Rect { width: sub_floor(self.width, value as u32), ..self }
    }

    /// Takes `value` off the height
    pub fn margin_bottom(self, value: u16) -> (r: Self)
        ensures
            r == (Rect { height: sat_sub(self.height as int, value as int) as u16, ..self }),
    {
        Rect { height: sub_floor(self.height, value as u32), ..self }
    }

    /// Positions this rect inside `inside` by the alignment of each axis;
    /// the size is kept.
    pub fn align(self, inside: Rect, align: AxisAlign) -> (r: Self)
        ensures
            r.x == sat_add16(
                align_offset(align.0, self.width as int, inside.width as int),
                inside.x as int,
            ),
            r.y == sat_add16(
                align_offset(align.1, self.height as int, inside.height as int),
                inside.y as int,
            ),
            r.width == self.width,
            r.height == self.height,
    {
        let (x, y) = align.calc(self.size(), inside.size());
        self.with_x(x.saturating_add(inside.x)).with_y(y.saturating_add(inside.y))
    }

    /// Centers this rect inside `inside` on both axes
    pub fn align_center(self, inside: Rect) -> (r: Self)
        ensures
            r.x == sat_add16(
                align_offset(Align::Center, self.width as int, inside.width as int),
                inside.x as int,
            ),
            r.y == sat_add16(
                align_offset(Align::Center, self.height as int, inside.height as int),
                inside.y as int,
            ),
            r.width == self.width,
            r.height == self.height,
    {
        self.align(inside, AxisAlign(Align::Center, Align::Center))
    }

    /// Brings the size within `min_size` and `max_size`, the upper bound
    /// winning when the two cross
    pub fn clamp_size(self, min_size: (u16, u16), max_size: (u16, u16)) -> (r: Self)
        ensures
            r.x == self.x,
            r.y == self.y,
            r.width == min_int(max_int(self.width as int, min_size.0 as int), max_size.0 as int),
            r.height == min_int(
                max_int(self.height as int, min_size.1 as int),
                max_size.1 as int,
            ),
    {
        let w = if self.width < min_size.0 { min_size.0 } else { self.width };
        let h = if self.height < min_size.1 { min_size.1 } else { self.height };
        Rect {
            width: if w > max_size.0 { max_size.0 } else { w },
            height: if h > max_size.1 { max_size.1 } else { h },
            ..self
        }
    }

    /// Caps the size at `min_size` (the smaller of the two on each axis)
    pub fn min_size(self, min_size: (u16, u16)) -> (r: Self)
        ensures
            r == (Rect {
                width: min_int(self.width as int, min_size.0 as int) as u16,
                height: min_int(self.height as int, min_size.1 as int) as u16,
                ..self
            }),
    {
        Rect {
            width: if self.width < min_size.0 { self.width } else { min_size.0 },
            height: if self.height < min_size.1 { self.height } else { min_size.1 },
            ..self
        }
    }

    /// Raises the size to `max_size` (the larger of the two on each axis)
    pub fn max_size(self, max_size: (u16, u16)) -> (r: Self)
        ensures
            r == (Rect {
                width: max_int(self.width as int, max_size.0 as int) as u16,
                height: max_int(self.height as int, max_size.1 as int) as u16,
                ..self
            }),
    {
        Rect {
            width: if self.width > max_size.0 { self.width } else { max_size.0 },
            height: if self.height > max_size.1 { self.height } else { max_size.1 },
            ..self
        }
    }

    pub fn with_x(self, x: u16) -> (r: Self)
        ensures
            r == (Rect { x, ..self }),
    {
        Rect { x, ..self }
    }

    pub fn with_y(self, y: u16) -> (r: Self)
        ensures
            r == (Rect { y, ..self }),
    {
        Rect { y, ..self }
    }

    pub fn with_width(self, width: u16) -> (r: Self)
        ensures
            r == (Rect { width, ..self }),
    {
        Rect { width, ..self }
    }

    pub fn with_height(self, height: u16) -> (r: Self)
        ensures
            r == (Rect { height, ..self }),
    {
        Rect { height, ..self }
    }

    /// Moves the top left corner to `pos`
    pub fn with_pos(self, pos: (u16, u16)) -> (r: Self)
        ensures
            r == (Rect { x: pos.0, y: pos.1, ..self }),
    {
        self.with_x(pos.0).with_y(pos.1)
    }

    /// Sets the size `(width, height)`
    pub fn with_size(self, size: (u16, u16)) -> (r: Self)
        ensures
            r == (Rect { width: size.0, height: size.1, ..self }),
    {
        self.with_width(size.0).with_height(size.1)
    }

    /// Moves the left edge to `left`, shrinking the width by how far it moved right
    pub fn with_left(self, left: u16) -> (r: Self)
        ensures
            r == (Rect {
                x: left,
                width: sat_sub(self.width as int, sat_sub(left as int, self.x as int)) as u16,
                ..self
            }),
    {
        Rect {
            x: left,
            width: self.width.saturating_sub(left.saturating_sub(self.x)),
            ..self
        }
    }

    /// Moves the top edge to `top`, shrinking the height by how far it moved down
    pub fn with_top(self, top: u16) -> (r: Self)
        ensures
            r == (Rect {
                y: top,
                height: sat_sub(self.height as int, sat_sub(top as int, self.y as int)) as u16,
                ..self
            }),
    {
        Rect {
            y: top,
            height: self.height.saturating_sub(top.saturating_sub(self.y)),
            ..self
        }
    }

    /// Moves the right edge to `right`
    pub fn with_right(self, right: u16) -> (r: Self)
        ensures
            r == (Rect { width: sat_sub(right as int, self.x as int) as u16, ..self }),
    {
        Rect { width: right.saturating_sub(self.x), ..self }
    }

    /// Moves the bottom edge to `bottom`
    pub fn with_bottom(self, bottom: u16) -> (r: Self)
        ensures
            r == (Rect { height: sat_sub(bottom as int, self.y as int) as u16, ..self }),
    {
        Rect { height: bottom.saturating_sub(self.y), ..self }
    }

    pub fn add_x(self, value: u16) -> (r: Self)
        ensures
            r == (Rect { x: sat_add16(self.x as int, value as int) as u16, ..self }),
    {
        Rect { x: self.x.saturating_add(value), ..self }
    }

    pub fn sub_x(self, value: u16) -> (r: Self)
        ensures
            r == (Rect { x: sat_sub(self.x as int, value as int) as u16, ..self }),
    {
        Rect { x: self.x.saturating_sub(value), ..self }
    }

    pub fn add_y(self, value: u16) -> (r: Self)
        ensures
            r == (Rect { y: sat_add16(self.y as int, value as int) as u16, ..self }),
    {
        Rect { y: self.y.saturating_add(value), ..self }
    }

    pub fn sub_y(self, value: u16) -> (r: Self)
        ensures
            r == (Rect { y: sat_sub(self.y as int, value as int) as u16, ..self }),
    {
        Rect { y: self.y.saturating_sub(value), ..self }
    }

    pub fn add_width(self, value: u16) -> (r: Self)
        ensures
            r == (Rect { width: sat_add16(self.width as int, value as int) as u16, ..self }),
    {
        Rect { width: self.width.saturating_add(value), ..self }
    }

    pub fn sub_width(self, value: u16) -> (r: Self)
        ensures
            r == (Rect { width: sat_sub(self.width as int, value as int) as u16, ..self }),
    {
        Rect { width: self.width.saturating_sub(value), ..self }
    }

    pub fn add_height(self, value: u16) -> (r: Self)
        ensures
            r == (Rect { height: sat_add16(self.height as int, value as int) as u16, ..self }),
    {
        Rect { height: self.height.saturating_add(value), ..self }
    }

    pub fn sub_height(self, value: u16) -> (r: Self)
        ensures
            r == (Rect { height: sat_sub(self.height as int, value as int) as u16, ..self }),
    {
        Rect { height: self.height.saturating_sub(value), ..self }
    }

    /// Left edge (`x`)
    pub fn left(&self) -> (r: u16)
        ensures
            r == self.x,
    {
        self.x
    }

    /// Top edge (`y`)
    pub fn top(&self) -> (r: u16)
        ensures
            r == self.y,
    {
        self.y
    }

    /// Right edge (`x + width`, saturating)
    pub fn right(&self) -> (r: u16)
        ensures
            r == sat_add16(self.x as int, self.width as int),
    {
        self.x.saturating_add(self.width)
    }

    /// Bottom edge (`y + height`, saturating)
    pub fn bottom(&self) -> (r: u16)
        ensures
            r == sat_add16(self.y as int, self.height as int),
    {
        self.y.saturating_add(self.height)
    }

    /// Top left corner `(x, y)`
    pub fn top_left(&self) -> (r: (u16, u16))
        ensures
            r == (self.x, self.y),
    {
        (self.x, self.y)
    }

    /// Top right corner `(x + width - 1, y)`
    pub fn top_right(&self) -> (r: (u16, u16))
        ensures
            r == (last_of(self.x as int, self.width as int) as u16, self.y),
    {
        (self.x.saturating_add(self.width).saturating_sub(1), self.y)
    }

    /// Bottom right corner `(x + width - 1, y + height - 1)`
    pub fn bottom_right(&self) -> (r: (u16, u16))
        ensures
            r == (
                last_of(self.x as int, self.width as int) as u16,
                last_of(self.y as int, self.height as int) as u16,
            ),
    {
        (
            self.x.saturating_add(self.width).saturating_sub(1),
            self.y.saturating_add(self.height).saturating_sub(1),
        )
    }

    /// Bottom left corner `(x, y + height - 1)`
    pub fn bottom_left(&self) -> (r: (u16, u16))
        ensures
            r == (self.x, last_of(self.y as int, self.height as int) as u16),
    {
        (self.x, self.y.saturating_add(self.height).saturating_sub(1))
    }

    /// Center `(x + width / 2, y + height / 2)`
    pub fn center(&self) -> (r: (u16, u16))
        ensures
            r == (
                sat_add16(self.x as int, self.width as int / 2) as u16,
                sat_add16(self.y as int, self.height as int / 2) as u16,
            ),
    {
        (self.x.saturating_add(self.width / 2), self.y.saturating_add(self.height / 2))
    }

    /// Top left corner `(x, y)`
    pub fn pos(&self) -> (r: (u16, u16))
        ensures
            r == (self.x, self.y),
    {
        self.top_left()
    }

    /// Size `(width, height)`
    pub fn size(&self) -> (r: (u16, u16))
        ensures
            r == (self.width, self.height),
    {
        (self.width, self.height)
    }

    /// Area `width * height`, saturating
    pub fn area(&self) -> (r: u16)
        ensures
            r == min_int(self.width * self.height, u16::MAX as int),
    {
        let w = self.width as u64;
        let h = self.height as u64;
        assert(w * h <= 65535 * 65535) by (nonlinear_arith)
            requires
                w <= 65535,
                h <= 65535,
        ;
        let a: u64 = w * h;
        if a > u16::MAX as u64 {
            u16::MAX
        } else {
            a as u16
        }
    }

    /// Left border column `(x, y, 1, height)`
    pub fn left_border(&self) -> (r: Rect)
        ensures
            r == (Rect { x: self.x, y: self.y, width: 1, height: self.height }),
    {
        Rect::new(self.x, self.y, 1, self.height)
    }

    /// Top border row `(x, y, width, 1)`
    pub fn top_border(&self) -> (r: Rect)
        ensures
            r == (Rect { x: self.x, y: self.y, width: self.width, height: 1 }),
    {
        Rect::new(self.x, self.y, self.width, 1)
    }

    /// Right border column `(x + width - 1, y, 1, height)`
    pub fn right_border(&self) -> (r: Rect)
        ensures
            r == (Rect {
                x: last_of(self.x as int, self.width as int) as u16,
                y: self.y,
                width: 1,
                height: self.height,
            }),
    {
        Rect::new(self.x.saturating_add(self.width).saturating_sub(1), self.y, 1, self.height)
    }

    /// Bottom border row `(x, y + height - 1, width, 1)`
    pub fn bottom_border(&self) -> (r: Rect)
        ensures
            r == (Rect {
                x: self.x,
                y: last_of(self.y as int, self.height as int) as u16,
                width: self.width,
                height: 1,
            }),
    {
        Rect::new(self.x, self.y.saturating_add(self.height).saturating_sub(1), self.width, 1)
    }
}

impl Default for Rect {
    /// The empty rect at the origin
    fn default() -> (r: Self)
        ensures
            r == (Rect { x: 0, y: 0, width: 0, height: 0 }),
    {
        Rect::new(0, 0, 0, 0)
    }
}

impl From<(u16, u16)> for Rect {
    /// A rect of size `(width, height)` at the origin
    fn from(v: (u16, u16)) -> Self {
        Rect::new(0, 0, v.0, v.1)
    }
}

impl vstd::std_specs::convert::FromSpecImpl<(u16, u16)> for Rect {
    open spec fn obeys_from_spec() -> bool {
        true
    }

    open spec fn from_spec(v: (u16, u16)) -> Self {
        Rect { x: 0, y: 0, width: v.0, height: v.1 }
    }
}

impl From<(u16, u16, u16, u16)> for Rect {
    /// A rect from `(x, y, width, height)`
    fn from(v: (u16, u16, u16, u16)) -> Self {
        Rect::new(v.0, v.1, v.2, v.3)
    }
}

impl vstd::std_specs::convert::FromSpecImpl<(u16, u16, u16, u16)> for Rect {
    open spec fn obeys_from_spec() -> bool {
        true
    }

    open spec fn from_spec(v: (u16, u16, u16, u16)) -> Self {
        Rect { x: v.0, y: v.1, width: v.2, height: v.3 }
    }
}

/// A zero margin leaves every rect as it is, and no margin makes a rect
/// larger: the size saturates at 0 rather than going below it.
pub proof fn lemma_margin_saturates(r: Rect, m: Margin)
    ensures
        margined(r, Margin(0, 0, 0, 0)) == r,
        margined(r, m).width <= r.width,
        margined(r, m).height <= r.height,
        margined(r, m).width == 0 <==> r.width <= m.0 + m.2,
        margined(r, m).height == 0 <==> r.height <= m.1 + m.3,
{
}

} // verus!
