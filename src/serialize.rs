//! Turning a buffer into terminal output: the order of cursor moves, style
//! changes and glyph writes, and which attribute changes a style change
//! needs. A backend performs the operations.
use vstd::prelude::*;
use crate::buffer::{glyph_width, Buffer, CellView};
use crate::style::{Color, Style, UnderlineKind};

verus! {

/// One attribute or color command of a style change
#[derive(Debug, Clone, Copy, PartialEq, Eq, Structural)]
pub enum StyleCmd {
    Underline(UnderlineKind),
    Bold,
    Italic,
    Reverse,
    /// Turn every attribute off
    ResetAttributes,
    Background(Color),
    Foreground(Color),
}

/// Whether an attribute is set and on.
pub open spec fn on(v: Option<bool>) -> bool {
    v == Some(true)
}

/// The command for one attribute: turn it on if `style` has it, else turn
/// everything off if `last` had it, else nothing.
pub open spec fn attr_cmds(now: bool, before: bool, cmd: StyleCmd) -> Seq<StyleCmd> {
    if now { seq![cmd] } else if before { seq![StyleCmd::ResetAttributes] } else { seq![] }
}

/// The underline command: its kind when `style` underlines, else turning
/// everything off when `last` underlined.
pub open spec fn underline_cmds(style: Style, last: Style) -> Seq<StyleCmd> {
    if on(style.underline) {
        match style.underline_kind {
            Some(k) => seq![StyleCmd::Underline(k)],
            None => seq![],
        }
    } else if on(last.underline) {
        seq![StyleCmd::ResetAttributes]
    } else {
        seq![]
    }
}

/// A closing reset when any attribute was turned off.
pub open spec fn reset_cmds(style: Style, last: Style) -> Seq<StyleCmd> {
    if (!on(style.underline) && on(last.underline)) || (!on(style.bold) && on(last.bold)) || (!on(
        style.italic,
    ) && on(last.italic)) || (!on(style.reverse) && on(last.reverse)) {
        seq![StyleCmd::ResetAttributes]
    } else {
        seq![]
    }
}

/// Background then foreground; an unset color means the terminal's default.
pub open spec fn color_cmds(style: Style) -> Seq<StyleCmd> {
    seq![
        StyleCmd::Background(match style.bg { Some(c) => c, None => Color::Reset }),
        StyleCmd::Foreground(match style.fg { Some(c) => c, None => Color::Reset }),
    ]
}

/// The commands that switch the terminal from `last` to `style`: the
/// attributes, a reset if one was turned off, then the colors.
pub open spec fn style_cmds(style: Style, last: Style) -> Seq<StyleCmd> {
    underline_cmds(style, last) + attr_cmds(on(style.bold), on(last.bold), StyleCmd::Bold)
        + attr_cmds(on(style.italic), on(last.italic), StyleCmd::Italic) + attr_cmds(
        on(style.reverse),
        on(last.reverse),
        StyleCmd::Reverse,
    ) + reset_cmds(style, last) + color_cmds(style)
}

fn push_attr(cmds: &mut Vec<StyleCmd>, now: bool, before: bool, cmd: StyleCmd)
    ensures
        final(cmds)@ == old(cmds)@ + attr_cmds(now, before, cmd),
{
    if now {
        cmds.push(cmd);
    } else if before {
        cmds.push(StyleCmd::ResetAttributes);
    }
    assert(final(cmds)@ =~= old(cmds)@ + attr_cmds(now, before, cmd));
}

fn is_on(v: Option<bool>) -> (r: bool)
    ensures
        r == on(v),
{
    match v {
        Some(b) => b,
        None => false,
    }
}

/// The commands that switch the terminal from style `last` to `style`
#[verifier::rlimit(60)]
pub fn write_style(style: &Style, last_style: &Style) -> (r: Vec<StyleCmd>)
    ensures
        r@ == style_cmds(*style, *last_style),
{
    let mut cmds: Vec<StyleCmd> = Vec::new();
    let u = is_on(style.underline);
    let lu = is_on(last_style.underline);
    if u {
        match style.underline_kind {
            Some(k) => cmds.push(StyleCmd::Underline(k)),
            None => {},
        }
    } else if lu {
        cmds.push(StyleCmd::ResetAttributes);
    }
    let ghost after_underline = underline_cmds(*style, *last_style);
    assert(cmds@ =~= after_underline);
    let b = is_on(style.bold);
    let lb = is_on(last_style.bold);
    let i = is_on(style.italic);
    let li = is_on(last_style.italic);
    let v = is_on(style.reverse);
    let lv = is_on(last_style.reverse);
    push_attr(&mut cmds, b, lb, StyleCmd::Bold);
    push_attr(&mut cmds, i, li, StyleCmd::Italic);
    push_attr(&mut cmds, v, lv, StyleCmd::Reverse);
    let ghost after_attrs = cmds@;
    if (!u && lu) || (!b && lb) || (!i && li) || (!v && lv) {
        cmds.push(StyleCmd::ResetAttributes);
    }
    assert(cmds@ =~= after_attrs + reset_cmds(*style, *last_style));
    let ghost after_reset = cmds@;
    let bg = match style.bg {
        Some(c) => c,
        None => Color::Reset,
    };
    let fg = match style.fg {
        Some(c) => c,
        None => Color::Reset,
    };
    cmds.push(StyleCmd::Background(bg));
    cmds.push(StyleCmd::Foreground(fg));
    assert(cmds@ =~= after_reset + color_cmds(*style));
    cmds
}

/// One operation of writing a buffer to the terminal
#[derive(Debug, Clone, PartialEq, Eq)]
pub enum TermOp {
    /// Move the cursor to `(x, y)`
    MoveTo(u16, u16),
    /// Switch from the second style to the first
    SetStyle(Style, Style),
    /// Write text at the cursor
    Write(String),
    /// Reset every style
    Reset,
    /// Flush the output
    Flush,
}

/// What an operation does, with the written text as characters.
pub enum TermOpView {
    MoveTo(u16, u16),
    SetStyle(Style, Style),
    Write(Seq<char>),
    Reset,
    Flush,
}

impl View for TermOp {
    type V = TermOpView;

    open spec fn view(&self) -> TermOpView {
        match self {
            TermOp::MoveTo(x, y) => TermOpView::MoveTo(*x, *y),
            TermOp::SetStyle(a, b) => TermOpView::SetStyle(*a, *b),
            TermOp::Write(s) => TermOpView::Write(s@),
            TermOp::Reset => TermOpView::Reset,
            TermOp::Flush => TermOpView::Flush,
        }
    }
}

pub open spec fn op_views(v: Seq<TermOp>) -> Seq<TermOpView> {
    v.map_values(|o: TermOp| o@)
}

/// The operations for cells `k..` of a `width`-wide grid: a cell after a
/// double-width glyph is skipped; a style change is emitted only when the
/// style differs from the last one; an empty cell is written as a space; the
/// cursor moves to the next row after each row's last column.
pub open spec fn cell_ops(cells: Seq<CellView>, width: int, k: int, skip: bool, last: Style) -> Seq<TermOpView>
    decreases cells.len() - k,
{
    if k < 0 || k >= cells.len() {
        seq![]
    } else if skip {
        cell_ops(cells, width, k + 1, false, last)
    } else {
        let c = cells[k];
        let x = k % width;
        let y = k / width;
        let style_ops = if c.1 != last { seq![TermOpView::SetStyle(c.1, last)] } else { seq![] };
        let glyph = match c.0 {
            Some(g) => g,
            None => seq![' '],
        };
        let row_end = if x >= width - 1 { seq![TermOpView::MoveTo(0, (y + 1) as u16)] } else { seq![] };
        style_ops + seq![TermOpView::Write(glyph)] + row_end + cell_ops(
            cells,
            width,
            k + 1,
            glyph_width(c.0) == 2,
            c.1,
        )
    }
}

/// Everything that writing a buffer emits: a move to the origin, the
/// default style, the cells, then a reset and a flush.
pub open spec fn buffer_ops(cells: Seq<CellView>, width: int) -> Seq<TermOpView> {
    seq![
        TermOpView::MoveTo(0, 0),
        TermOpView::SetStyle(Style::empty_spec(), Style::empty_spec()),
    ] + cell_ops(cells, width, 0, false, Style::empty_spec()) + seq![TermOpView::Reset, TermOpView::Flush]
}

/// The operations that write the whole buffer to a terminal, in order
pub fn write_buffer(buffer: &Buffer) -> (r: Vec<TermOp>)
    requires
        buffer.wf(),
    ensures
        op_views(r@) == buffer_ops(buffer@, buffer.width as int),
{
    let mut ops: Vec<TermOp> = Vec::new();
    ops.push(TermOp::MoveTo(0, 0));
    ops.push(TermOp::SetStyle(Style::empty(), Style::empty()));
    let mut last = Style::empty();
    let mut skip = false;
    let n = buffer.cells.len();
    let ghost cells = buffer@;
    let ghost w = buffer.width as int;
    let ghost head = seq![
        TermOpView::MoveTo(0, 0),
        TermOpView::SetStyle(Style::empty_spec(), Style::empty_spec()),
    ];
    assert(op_views(ops@) =~= head);
    let mut k: usize = 0;
    while k < n
        invariant
            buffer.wf(),
            n == buffer.cells@.len(),
            cells == buffer@,
            w == buffer.width,
            k <= n,
            op_views(ops@) + cell_ops(cells, w, k as int, skip, last) == head + cell_ops(
                cells,
                w,
                0,
                false,
                Style::empty_spec(),
            ),
        decreases n - k,
    {
        let ghost before = op_views(ops@);
        let ghost prev_last = last;
        if skip {
            skip = false;
            k = k + 1;
            continue;
        }
        let (x, y) = match buffer.pos_of(k) {
            Some(p) => p,
            None => (0, 0),
        };
        assert(w > 0) by (nonlinear_arith)
            requires
                k < n,
                n == w * buffer.height,
                w >= 0,
                buffer.height >= 0,
        ;
        let cell = &buffer.cells[k];
        assert(cell.wf());
        let wide = cell.display_width() == 2;
        let ghost c = cells[k as int];
        assert(cell@ == c);
        let style = cell.style();
        let ghost style_ops = if c.1 != last { seq![TermOpView::SetStyle(c.1, last)] } else { seq![] };
        if style != last {
            let ghost prev = ops@;
            ops.push(TermOp::SetStyle(style, last));
            assert(op_views(ops@) =~= op_views(prev).push(TermOpView::SetStyle(c.1, last)));
            last = style;
        }
        assert(op_views(ops@) =~= before + style_ops);
        let glyph = match cell.char() {
            Some(g) => String::from_str(g),
            None => {
                let s = String::from_str(" ");
                proof {
                    reveal_strlit(" ");
                }
                s
            },
        };
        let ghost gv = glyph@;
        assert(gv == match c.0 {
            Some(g) => g,
            None => seq![' '],
        });
        let ghost prev2 = ops@;
        ops.push(TermOp::Write(glyph));
        assert(op_views(ops@) =~= op_views(prev2).push(TermOpView::Write(gv)));
        let ghost row_end = if (k as int % w) >= w - 1 { seq![TermOpView::MoveTo(0, (k as int / w + 1) as u16)] } else { seq![] };
        let ghost prev3 = ops@;
        assert(x as int == k as int % w);
        assert(y as int == k as int / w);
        if x >= buffer.width.saturating_sub(1) {
            ops.push(TermOp::MoveTo(0, y + 1));
            assert(op_views(ops@) =~= op_views(prev3).push(TermOpView::MoveTo(0, (k as int / w + 1) as u16)));
        }
        assert(op_views(ops@) =~= before + style_ops + seq![TermOpView::Write(gv)] + row_end);
        assert(cell_ops(cells, w, k as int, false, prev_last) == style_ops + seq![TermOpView::Write(gv)] + row_end + cell_ops(cells, w, k + 1, wide, c.1));
        skip = wide;
        k = k + 1;
    }
    ops.push(TermOp::Reset);
    ops.push(TermOp::Flush);
    ops
}

} // verus!
