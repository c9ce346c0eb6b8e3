//! Elements placed one after another in a row or a column.
use vstd::prelude::*;
use crate::buffer::{Buffer, CellView};
use crate::geometry::{max_int, sat_add16, Direction, Margin};
use crate::rect::{margined, Rect};
use super::Draw;

verus! {

/// Items drawn one after another, each in what the previous ones left
#[derive(Debug, Clone, PartialEq, Eq)]
pub struct List<W> {
    pub content: Vec<W>,
    pub direction: Direction,
    pub gap: u16,
}

/// The region left for the next item once `size` is used along `dir`.
pub open spec fn after_used(rect: Rect, dir: Direction, size: int) -> Rect {
    match dir {
        Direction::Horizontal => margined(rect, Margin(size as u16, 0, 0, 0)),
        Direction::Vertical => margined(rect, Margin(0, size as u16, 0, 0)),
    }
}

/// The region a list reports: the size used along its direction and the
/// largest extent of an item across it.
pub open spec fn list_extent(rect: Rect, dir: Direction, size: int, max_w: int, max_h: int) -> Rect {
    match dir {
        Direction::Horizontal => Rect { width: size as u16, height: max_h as u16, ..rect },
        Direction::Vertical => Rect { width: max_w as u16, height: size as u16, ..rect },
    }
}

/// The region that drawing items `k..` uses, `size` being used already.
pub open spec fn list_area<W: Draw>(
    items: Seq<W>,
    dir: Direction,
    gap: int,
    rect: Rect,
    k: int,
    size: int,
    max_w: int,
    max_h: int,
) -> Rect
    decreases items.len() - k,
{
    let sub = after_used(rect, dir, size);
    if k < 0 || k >= items.len() || sub.width == 0 || sub.height == 0 {
        list_extent(rect, dir, size, max_w, max_h)
    } else {
        let a = items[k].area(sub);
        let step = match dir {
            Direction::Horizontal => a.width as int,
            Direction::Vertical => a.height as int,
        };
        list_area(
            items,
            dir,
            gap,
            rect,
            k + 1,
            sat_add16(sat_add16(size, step), gap),
            max_int(a.width as int, max_w),
            max_int(a.height as int, max_h),
        )
    }
}

/// The cells after drawing items `k..` of a list, `size` being used already.
pub open spec fn list_cells<W: Draw>(
    items: Seq<W>,
    dir: Direction,
    gap: int,
    rect: Rect,
    k: int,
    size: int,
    cells: Seq<CellView>,
    width: int,
    height: int,
) -> Seq<CellView>
    decreases items.len() - k,
{
    let sub = after_used(rect, dir, size);
    if k < 0 || k >= items.len() || sub.width == 0 || sub.height == 0 {
        cells
    } else {
        let a = items[k].area(sub);
        let step = match dir {
            Direction::Horizontal => a.width as int,
            Direction::Vertical => a.height as int,
        };
        list_cells(
            items,
            dir,
            gap,
            rect,
            k + 1,
            sat_add16(sat_add16(size, step), gap),
            items[k].drawn(cells, width, height, sub),
            width,
            height,
        )
    }
}

impl<W: Draw> List<W> {
    pub fn new(content: Vec<W>, direction: Direction) -> (r: Self)
        ensures
            r.content@ == content@,
            r.direction == direction,
            r.gap == 0,
    {
        List { content, direction, gap: 0 }
    }

    /// Items in a row
    pub fn row(content: Vec<W>) -> (r: Self)
        ensures
            r.content@ == content@,
            r.direction == Direction::Horizontal,
            r.gap == 0,
    {
        List::new(content, Direction::Horizontal)
    }

    /// Items in a column
    pub fn col(content: Vec<W>) -> (r: Self)
        ensures
            r.content@ == content@,
            r.direction == Direction::Vertical,
            r.gap == 0,
    {
        List::new(content, Direction::Vertical)
    }

    pub fn direction(self, direction: Direction) -> (r: Self)
        ensures
            r.content@ == self.content@,
            r.direction == direction,
            r.gap == self.gap,
    {
        List { direction, ..self }
    }

    /// Sets the gap between items
    pub fn gap(self, value: u16) -> (r: Self)
        ensures
            r.content@ == self.content@,
            r.direction == self.direction,
            r.gap == value,
    {
        List { gap: value, ..self }
    }
}

impl<W: Draw> Draw for List<W> {
    open spec fn ready(&self) -> bool {
        forall|i: int| 0 <= i < self.content@.len() ==> (#[trigger] self.content@[i]).ready()
    }

    open spec fn drawn(&self, cells: Seq<CellView>, width: int, height: int, rect: Rect) -> Seq<CellView> {
        list_cells(self.content@, self.direction, self.gap as int, rect, 0, 0, cells, width, height)
    }

    open spec fn area(&self, rect: Rect) -> Rect {
        list_area(self.content@, self.direction, self.gap as int, rect, 0, 0, 0, 0)
    }

    /// Draws each item in the part of `rect` that the previous items (and
    /// the gaps after them) left, until the items or the room run out.
    fn draw(self, buf: &mut Buffer, rect: Rect) -> (r: Rect) {
        let ghost all = self.content@;
        let dir = self.direction;
        let gap = self.gap;
        let mut items = self.content;
        let mut max_w: u16 = 0;
        let mut max_h: u16 = 0;
        let mut size: u16 = 0;
        let ghost mut k: int = 0;
        while items.len() > 0
            invariant
                buf.wf(),
                buf.width == old(buf).width,
                buf.height == old(buf).height,
                0 <= k <= all.len(),
                forall|i: int| 0 <= i < all.len() ==> (#[trigger] all[i]).ready(),
                items@ == all.subrange(k, all.len() as int),
                list_area(all, dir, gap as int, rect, k, size as int, max_w as int, max_h as int)
                    == list_area(all, dir, gap as int, rect, 0, 0, 0, 0),
                list_cells(all, dir, gap as int, rect, k, size as int, buf@, buf.width as int, buf.height as int)
                    == list_cells(all, dir, gap as int, rect, 0, 0, old(buf)@, buf.width as int, buf.height as int),
            ensures
                list_cells(all, dir, gap as int, rect, k, size as int, buf@, buf.width as int, buf.height as int)
                    == buf@,
                list_cells(all, dir, gap as int, rect, k, size as int, buf@, buf.width as int, buf.height as int)
                    == list_cells(all, dir, gap as int, rect, 0, 0, old(buf)@, buf.width as int, buf.height as int),
                list_area(all, dir, gap as int, rect, k, size as int, max_w as int, max_h as int)
                    == list_extent(rect, dir, size as int, max_w as int, max_h as int),
                list_area(all, dir, gap as int, rect, k, size as int, max_w as int, max_h as int)
                    == list_area(all, dir, gap as int, rect, 0, 0, 0, 0),
            decreases items@.len(),
        {
            let sub = match dir {
                Direction::Horizontal => rect.margin(Margin(size, 0, 0, 0)),
                Direction::Vertical => rect.margin(Margin(0, size, 0, 0)),
            };
            if sub.width == 0 || sub.height == 0 {
                break;
            }
            let item = items.remove(0);
            assert(item == all[k]);
            let used = item.draw(buf, sub);
            if used.width > max_w {
                max_w = used.width;
            }
            if used.height > max_h {
                max_h = used.height;
            }
            let step = match dir {
                Direction::Horizontal => used.width,
                Direction::Vertical => used.height,
            };
            size = size.saturating_add(step).saturating_add(gap);
            proof {
                k = k + 1;
                assert(items@ =~= all.subrange(k, all.len() as int));
            }
        }
        match dir {
            Direction::Horizontal => rect.with_width(size).with_height(max_h),
            Direction::Vertical => rect.with_height(size).with_width(max_w),
        }
    }
}

} // verus!
