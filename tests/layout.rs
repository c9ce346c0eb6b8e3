use unicode_width::UnicodeWidthStr;
use tuich::clip::{place, place_aligned, Clip};
use tuich::geometry::{Align, AxisAlign, Clamp, Direction, Margin, Point, Side};
use tuich::rect::Rect;
use tuich::stack::{Length, Overflow, Stack};

#[test]
fn margin_sides() {
    let m = Margin(1, 2, 3, 4);

    assert_eq!(m.left(), 1, "Left");
    assert_eq!(m.top(), 2, "Top");
    assert_eq!(m.right(), 3, "Right");
    assert_eq!(m.bottom(), 4, "Bottom");
    assert_eq!(m.hor(), (1, 3), "Horizontal");
    assert_eq!(m.ver(), (2, 4), "Vertical");
}

#[test]
fn into_margin() {
    let all = Margin::from(10);
    let axis = Margin::from((10, 20));
    let each = Margin::from((1, 2, 3, 4));

    assert_eq!(all, Margin(10, 10, 10, 10), "All sides");

    assert_eq!(axis.hor(), (10, 10), "Horizontal sides");
    assert_eq!(axis.ver(), (20, 20), "Vertical sides");

    assert_eq!(each, Margin(1, 2, 3, 4), "Each side");
    assert_eq!(each.left(), 1, "Left side");
    assert_eq!(each.top(), 2, "Top side");
    assert_eq!(each.right(), 3, "Right side");
    assert_eq!(each.bottom(), 4, "Bottom side");
}

#[test]
fn clamp() {
    let none = Clamp::<u16>::Unbounded;
    let min = Clamp::Min(4);
    let max = Clamp::Max(10);
    let min_max = Clamp::MinMax(4, 10);

    // Set
    assert_eq!(none.set_min(2), Clamp::Min(2));
    assert_eq!(none.set_max(4), Clamp::Max(4));

    assert_eq!(min.set_min(2), Clamp::Min(2));
    assert_eq!(min.set_max(6), Clamp::MinMax(4, 6));

    assert_eq!(max.set_min(2), Clamp::MinMax(2, 10));
    assert_eq!(max.set_max(6), Clamp::Max(6));

    assert_eq!(min_max.set_min(2), Clamp::MinMax(2, 10));
    assert_eq!(min_max.set_max(6), Clamp::MinMax(4, 6));

    // Get
    assert_eq!(none.min(), None);
    assert_eq!(none.max(), None);
    assert_eq!(min.min(), Some(4));
    assert_eq!(min.max(), None);
    assert_eq!(max.min(), None);
    assert_eq!(max.max(), Some(10));
    assert_eq!(min_max.min(), Some(4));
    assert_eq!(min_max.max(), Some(10));
}

#[test]
fn into_rect() {
    assert_eq!(Rect::from((10, 20)), Rect::new(0, 0, 10, 20));
    assert_eq!(Rect::from((1, 5, 10, 20)), Rect::new(1, 5, 10, 20));
}

#[test]
fn rect_pos() {
    let r = Rect::new(1, 3, 10, 20);

    assert_eq!(r.left(), 1, "Left (x)");
    assert_eq!(r.top(), 3, "Top (y)");
    assert_eq!(r.right(), 11, "Right (x + width)");
    assert_eq!(r.bottom(), 23, "Bottom (y + height)");
    assert_eq!(r.top_left(), (1, 3), "Top left (x, y)");
    assert_eq!(r.top_right(), (10, 3), "Top right (x + width, y)");
    assert_eq!(r.bottom_right(), (10, 22), "Bottom right (x + width, y + height)");
    assert_eq!(r.bottom_left(), (1, 22), "Bottom left (x, y + height)");
    assert_eq!(r.pos(), (1, 3), "Position (x, y)");
    assert_eq!(r.size(), (10, 20), "Size (width, height)");
}

#[test]
fn align_offsets() {
    assert_eq!(Align::Start.calc(10, 24), 0);
    assert_eq!(Align::Center.calc(10, 24), 7);
    assert_eq!(Align::End.calc(10, 24), 14);
    assert_eq!(Align::Center.calc(11, 24), 7);
    assert_eq!(Align::Center.calc(0, 24), 0);
    assert_eq!(Align::End.calc(30, 24), 0);
    assert_eq!(Align::Center.calc(30, 24), 0);
}

#[test]
fn axis_align_offsets() {
    let target = (10, 8);
    let inside = (24, 30);
    assert_eq!(AxisAlign(Align::Center, Align::Center).calc(target, inside), (7, 11));
    assert_eq!(AxisAlign(Align::Start, Align::Center).calc(target, inside), (0, 11));
    assert_eq!(AxisAlign(Align::End, Align::End).calc(target, inside), (14, 22));
}

#[test]
fn rect_margins() {
    let r = Rect::new(0, 0, 10, 10);
    assert_eq!(r.margin(Margin::from(2)), Rect::new(2, 2, 6, 6));
    assert_eq!(r.margin(Margin::from((2, 4))), Rect::new(2, 4, 6, 2));
    assert_eq!(r.margin(Margin::from((1, 2, 3, 4))), Rect::new(1, 2, 6, 4));
}

#[test]
fn zero_margin_and_saturation() {
    let r = Rect::new(3, 4, 5, 6);
    assert_eq!(r.margin(Margin(0, 0, 0, 0)), r);
    let shrunk = r.margin(Margin(4, 4, 4, 4));
    assert_eq!(shrunk.width, 0);
    assert_eq!(shrunk.height, 0);
    let edge = Rect::new(65535, 65535, 65535, 65535).margin(Margin(65535, 65535, 65535, 65535));
    assert_eq!(edge, Rect::new(65535, 65535, 0, 0));
}

#[test]
fn rect_alignment() {
    let a = Rect::new(0, 0, 10, 8);
    let b = Rect::new(0, 0, 24, 30);
    assert_eq!(a.align(b, AxisAlign::from(Align::Center)), Rect::new(7, 11, 10, 8));
    assert_eq!(a.align(b, AxisAlign::from(Align::Start)), Rect::new(0, 0, 10, 8));
    assert_eq!(a.align(b, AxisAlign::from((Align::End, Align::Center))), Rect::new(14, 11, 10, 8));
    assert_eq!(a.align_center(b), Rect::new(7, 11, 10, 8));
}

#[test]
fn rect_edges() {
    let r = Rect::new(2, 2, 10, 10);
    assert_eq!(r.with_left(4), Rect::new(4, 2, 8, 10));
    assert_eq!(r.with_left(12), Rect::new(12, 2, 0, 10));
    assert_eq!(r.with_top(4), Rect::new(2, 4, 10, 8));
    assert_eq!(r.with_top(12), Rect::new(2, 12, 10, 0));
    assert_eq!(r.with_right(4), Rect::new(2, 2, 2, 10));
    assert_eq!(r.with_right(14), Rect::new(2, 2, 12, 10));
    assert_eq!(r.with_bottom(4), Rect::new(2, 2, 10, 2));
    assert_eq!(r.with_bottom(14), Rect::new(2, 2, 10, 12));
    let s = Rect::new(1, 2, 10, 20);
    assert_eq!(s.left_border(), Rect::new(1, 2, 1, 20));
    assert_eq!(s.top_border(), Rect::new(1, 2, 10, 1));
    assert_eq!(s.right_border(), Rect::new(10, 2, 1, 20));
    assert_eq!(s.bottom_border(), Rect::new(1, 21, 10, 1));
    assert_eq!(s.area(), 200);
    assert_eq!(Rect::new(0, 0, 1000, 1000).area(), 65535);
    assert_eq!(s.center(), (6, 12));
}

#[test]
fn clamp_values() {
    assert_eq!(Clamp::Unbounded.calc(7), 7);
    assert_eq!(Clamp::Min(4).calc(2), 4);
    assert_eq!(Clamp::Max(10).calc(12), 10);
    assert_eq!(Clamp::MinMax(4, 10).calc(7), 7);
    assert_eq!(Clamp::MinMax(4, 10).calc(1), 4);
    assert!(Clamp::MinMax(4, 10).in_bounds(5));
    assert!(!Clamp::MinMax(4, 10).in_bounds(4));
    assert_eq!(Clamp::new(Some(1), None), Clamp::Min(1));
    assert_eq!(Clamp::from((1, 2)), Clamp::MinMax(1, 2));
}

#[test]
fn side_indices() {
    assert_eq!(Side::TopLeft.index(), 1);
    assert_eq!(Side::from(6), Side::Bottom);
    assert_eq!(Side::from(9), Side::Left);
}

#[test]
fn clip_examples() {
    let t = "im too long to fit in the width of 20 chars!";

    assert_eq!(Clip::NoClip.calc(t, 20, Align::End), t);

    assert_eq!(Clip::Clip.calc(t, 20, Align::End), "im too long to fit i");
    assert_eq!(Clip::Ellipsis.calc(t, 20, Align::End), "im too long to fi...");
    assert_eq!(Clip::Custom("!!".to_string()).calc(t, 20, Align::End), "im too long to fit!!");

    assert_eq!(Clip::Clip.calc(t, 20, Align::Start), "e width of 20 chars!");
    assert_eq!(Clip::Ellipsis.calc(t, 20, Align::Start), "...idth of 20 chars!");
    assert_eq!(Clip::Custom("!!".to_string()).calc(t, 20, Align::Start), "!!width of 20 chars!");

    assert_eq!(Clip::Clip.calc(t, 20, Align::Center), "im too lon 20 chars!");
    assert_eq!(Clip::Ellipsis.calc(t, 20, Align::Center), "im too lo...0 chars!");
    assert_eq!(Clip::Ellipsis.calc(t, 29, Align::Center), "im too long t... of 20 chars!");
    assert_eq!(Clip::Custom("!!".to_string()).calc(t, 20, Align::Center), "im too lo!!20 chars!");

    assert_eq!(Clip::Hide.calc(t, 20, Align::End), "");
    assert_eq!(Clip::Hide.calc("short", 20, Align::End), "short");
    assert_eq!(Clip::Ellipsis.calc_end(t, 20), "im too long to fi...");
    assert_eq!(Clip::Ellipsis.calc_start(t, 20), "...idth of 20 chars!");
    assert_eq!(Clip::Ellipsis.calc_center(t, 20), "im too lo...0 chars!");
}

#[test]
fn clip_markers() {
    assert_eq!(Clip::NoClip.to_string(), None);
    assert_eq!(Clip::Clip.to_string(), None);
    assert_eq!(Clip::Ellipsis.to_string(), Some("...".to_string()));
    assert_eq!(Clip::Custom(">".to_string()).to_string(), Some(">".to_string()));
}

#[test]
fn ellipsis_fits_width() {
    for t in ["im too long to fit in the width of 20 chars!", "漢字かなカナ😄😄 wide glyphs here"] {
    for w in 0..50usize {
        for a in [Align::Start, Align::Center, Align::End] {
            let r = Clip::Ellipsis.calc(t, w, a);
            assert!(r.width() <= w, "width {} align {:?}: {:?}", w, a, r);
            let c = Clip::Custom("<>".to_string()).calc(t, w, a);
            assert!(c.width() <= w);
            assert!(Clip::Clip.calc(t, w, a).width() <= w);
        }
    }
    }
}

#[test]
fn clip_measures_display_width() {
    // two double-width glyphs are four columns wide, so only one fits in three
    assert_eq!(Clip::Clip.calc("漢字", 3, Align::End), "漢");
    assert_eq!(Clip::Ellipsis.calc("漢漢漢", 5, Align::End), "漢漢.");
    assert_eq!(Clip::Ellipsis.calc("漢漢漢", 2, Align::End), "..");
    assert_eq!(Clip::Clip.calc("漢字", 4, Align::End), "漢字");
    assert_eq!(Clip::Hide.calc("漢字", 3, Align::End), "");
}

#[test]
fn place_examples() {
    let s = "place😭 some other string here!";
    let p = "|place me!|";
    assert_eq!(place(s, p, 0), "|place me!| other string here!");
    assert_eq!(place(s, p, 2), "pl|place me!|ther string here!");
    assert_eq!(place(s, p, 24), "place😭 some other string|place me!|");

    let s = "place😭 some other string here";
    assert_eq!(place_aligned(s, p, Align::Start), "|place me!| other string here");
    assert_eq!(place_aligned(s, p, Align::End), "place😭 some other |place me!|");
    assert_eq!(place_aligned(s, p, Align::Center), "place😭 som|place me!|ing here");
}

#[test]
fn stack_row_example() {
    let rects = Stack::row(vec![
        Length::Value(3),
        Length::Factor(50, Clamp::Unbounded),
        Length::Fill(Clamp::Unbounded),
    ])
    .calc(Rect::new(0, 0, 20, 1));
    assert_eq!(rects, vec![Rect::new(0, 0, 3, 1), Rect::new(3, 0, 10, 1), Rect::new(13, 0, 7, 1)]);
    let total: u16 = rects.iter().map(|r| r.width).sum();
    assert!(total <= 20);
    for pair in rects.windows(2) {
        assert!(pair[0].x + pair[0].width <= pair[1].x);
    }
}

#[test]
fn stack_gap_and_column() {
    let rects = Stack::col(vec![Length::Value(2), Length::Fill(Clamp::Unbounded), Length::Value(2)])
        .gap(1)
        .calc(Rect::new(0, 0, 5, 12));
    assert_eq!(rects, vec![Rect::new(0, 0, 5, 2), Rect::new(0, 3, 5, 6), Rect::new(0, 10, 5, 2)]);
}

#[test]
fn stack_clamp_degrades_to_fixed() {
    let rects = Stack::row(vec![Length::Fill(Clamp::Max(4)), Length::Fill(Clamp::Unbounded)])
        .calc(Rect::new(0, 0, 20, 1));
    assert_eq!(rects, vec![Rect::new(0, 0, 4, 1), Rect::new(4, 0, 16, 1)]);
}

#[test]
fn stack_overflow_policies() {
    let lengths = vec![Length::Value(8), Length::Value(8), Length::Value(8)];
    let rect = Rect::new(0, 0, 20, 1);
    let all = Stack::row(lengths.clone()).calc(rect);
    assert_eq!(all.len(), 3);
    assert_eq!(all[2], Rect::new(16, 0, 8, 1));
    let clipped = Stack::row(lengths.clone()).overflow(Overflow::Clip).calc(rect);
    assert_eq!(clipped, vec![Rect::new(0, 0, 8, 1), Rect::new(8, 0, 8, 1), Rect::new(16, 0, 4, 1)]);
    let prevented = Stack::row(lengths.clone()).overflow(Overflow::Prevent).calc(rect);
    assert_eq!(prevented, vec![Rect::new(0, 0, 8, 1), Rect::new(8, 0, 8, 1)]);
    let skipped = Stack::row(lengths.clone()).gap(5).overflow(Overflow::Skip).calc(rect);
    assert_eq!(skipped, vec![Rect::new(0, 0, 8, 1), Rect::new(13, 0, 8, 1)]);
    assert_eq!(Stack::new(vec![]).direction(Direction::Horizontal).calc(rect), vec![]);
}

#[test]
fn point_arithmetic() {
    let p: (u16, u16) = (3, 65530);
    assert_eq!(p.x(), 3);
    assert_eq!(p.y(), 65530);
    assert_eq!(p.add((1, 10)), (4, 65535));
    assert_eq!(p.sub((5, 30)), (0, 65500));
    assert_eq!(p.mul(2), (6, 65535));
    assert_eq!(p.div(2), (1, 32765));
}
