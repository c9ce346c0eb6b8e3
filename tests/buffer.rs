use tuich::buffer::{Buffer, Cell};
use tuich::geometry::{Align, Direction};
use tuich::rect::Rect;
use tuich::serialize::{write_buffer, write_style, StyleCmd, TermOp};
use tuich::style::{BorderKind, Color, Style, UnderlineKind};
use tuich::widget::block::Block;
use tuich::widget::borders::Borders;
use tuich::widget::label::Text;
use tuich::widget::line::Line;
use tuich::widget::list::List;
use tuich::widget::paragraph::Paragraph;
use tuich::widget::{Clear, Draw, Dummy, RefDraw};
use tuich::wrap::Wrap;

fn glyph(buf: &Buffer, x: u16, y: u16) -> String {
    buf.get((x, y)).unwrap().char().unwrap().to_string()
}

fn row(buf: &Buffer, y: u16) -> String {
    (0..buf.width).map(|x| glyph(buf, x, y)).collect()
}

#[test]
fn resize_buffer() {
    let mut buf = Buffer::empty(2, 2);

    assert_eq!(buf.cells.len(), 4, "Before resize");

    buf.resize(3, 3);

    assert_eq!(buf.cells.len(), 9, "After resize");
}

#[test]
fn cells_match_size_after_writes() {
    let mut buf = Buffer::empty(4, 3);
    assert!(buf.set((1, 1), Some("x"), Style::default()));
    assert!(!buf.set((4, 0), Some("x"), Style::default()));
    assert!(!buf.set((0, 3), None, Style::default()));
    assert_eq!(buf.cells.len(), 12);
    buf.resize(0, 5);
    assert_eq!(buf.cells.len(), 0);
    assert!(!buf.set((0, 0), Some("x"), Style::default()));
    buf.resize(7, 2);
    assert_eq!(buf.cells.len(), 14);
    assert_eq!(glyph(&buf, 6, 1), " ");
}

#[test]
fn index_and_position() {
    let buf = Buffer::empty(3, 2);
    assert_eq!(buf.index_of((0, 0)), Some(0));
    assert_eq!(buf.index_of((2, 0)), Some(2));
    assert_eq!(buf.index_of((2, 1)), Some(5));
    assert_eq!(buf.index_of((4, 0)), None);
    assert_eq!(buf.pos_of(1), Some((1, 0)));
    assert_eq!(buf.pos_of(3), Some((0, 1)));
    assert_eq!(buf.pos_of(5), Some((2, 1)));
    assert_eq!(buf.pos_of(10), None);
    assert_eq!(buf.rect(), Rect::new(0, 0, 3, 2));
}

#[test]
fn set_merges_style() {
    let mut buf = Buffer::empty(2, 1);
    buf.set((0, 0), Some("a"), Style::from(Color::Red));
    buf.set((0, 0), None, Style::default().bold(Some(true)));
    let c = buf.get((0, 0)).unwrap();
    assert_eq!(c.char(), Some("a"));
    assert_eq!(c.style.fg, Some(Color::Red));
    assert_eq!(c.style.bold, Some(true));
    buf.set_char((1, 0), Some("界"));
    assert_eq!(buf.get((1, 0)).unwrap().display_width(), 2);
    buf.set_style((1, 0), Style::from(Color::Blue));
    assert_eq!(buf.get((1, 0)).unwrap().style.fg, Some(Color::Blue));
}

#[test]
fn string_writes() {
    let mut buf = Buffer::empty(5, 1);
    assert_eq!(buf.set_string((1, 0), 0, "hello", Style::default()), 4);
    assert_eq!(row(&buf, 0), " hell");
    let mut buf = Buffer::empty(5, 1);
    assert_eq!(buf.set_clamped_string((0, 0), 2, "e\u{301}bcd", Style::default(), 2), 2);
    assert_eq!(row(&buf, 0), "cd   ");
    assert_eq!(buf.set_clamped_string((0, 0), 9, "abc", Style::default(), 2), 0);
    let mut one = Buffer::empty(1, 1);
    assert_eq!(one.set_clamped_string((0, 0), 0, "ab", Style::default(), 10), 1);
    assert_eq!(one.set_clamped_string((0, 1), 0, "ab", Style::default(), 10), 0);
}

#[test]
fn buffer_into_buffer() {
    let mut src = Buffer::empty(3, 2);
    src.set_string((0, 0), 0, "abc", Style::default());
    src.set_string((0, 1), 0, "def", Style::default());
    let mut dst = Buffer::empty(4, 3);
    let used = RefDraw::draw(&src, &mut dst, Rect::new(2, 1, 5, 5));
    assert_eq!(used, Rect::new(2, 1, 3, 2));
    assert_eq!(row(&dst, 1), "  ab");
    assert_eq!(row(&dst, 2), "  de");
}

#[test]
fn bordered_block_with_centered_title() {
    let mut buf = Buffer::empty(10, 3);
    let title = Text::new("a much too long title", Style::default()).align(Align::Center);
    let used = Block::<Text, Dummy>::new(title).draw(&mut buf, Rect::new(0, 0, 10, 3));
    assert_eq!(used, Rect::new(0, 0, 10, 3));
    assert_eq!(row(&buf, 0), "┌a much t┐");
    assert_eq!(row(&buf, 1), "│        │");
    assert_eq!(row(&buf, 2), "└────────┘");
}

#[test]
fn bordered_block_with_short_title() {
    let mut buf = Buffer::empty(10, 3);
    let title = Text::new("hi", Style::default()).align(Align::Center);
    Block::<Text, Text>::new(title)
        .footer(Text::new("f", Style::default()))
        .kind(BorderKind::Double)
        .draw(&mut buf, Rect::new(0, 0, 10, 3));
    assert_eq!(row(&buf, 0), "╔═══hi═══╗");
    assert_eq!(row(&buf, 1), "║        ║");
    assert_eq!(row(&buf, 2), "╚f═══════╝");
}

#[test]
fn borders_fill_and_lines() {
    let mut buf = Buffer::empty(4, 3);
    Borders::rounded().fill(Cell::new(Some("."), Style::default())).draw(&mut buf, Rect::new(0, 0, 4, 3));
    assert_eq!(row(&buf, 0), "╭──╮");
    assert_eq!(row(&buf, 1), "│..│");
    assert_eq!(row(&buf, 2), "╰──╯");
    let mut buf = Buffer::empty(5, 1);
    let used = Line::horizontal(BorderKind::Single).start(Some('<')).end(Some('>')).draw(&mut buf, Rect::new(0, 0, 5, 4));
    assert_eq!(used, Rect::new(0, 0, 5, 1));
    assert_eq!(row(&buf, 0), "<───>");
}

#[test]
fn clear_fills_region() {
    let mut buf = Buffer::empty(3, 2);
    Clear::new(Cell::new(Some("#"), Style::default())).draw(&mut buf, Rect::new(1, 0, 5, 1));
    assert_eq!(row(&buf, 0), " ##");
    assert_eq!(row(&buf, 1), "   ");
}

#[test]
fn text_wraps_and_aligns() {
    let mut buf = Buffer::empty(6, 3);
    let used = Text::new("ab cd ef", Style::default()).wrap(Wrap::Words).draw(&mut buf, Rect::new(0, 0, 6, 3));
    assert_eq!(used, Rect::new(0, 0, 5, 2));
    assert_eq!(row(&buf, 0), "ab cd ");
    assert_eq!(row(&buf, 1), "ef    ");
    let mut buf = Buffer::empty(6, 1);
    let used = Text::new("ab", Style::default()).align(Align::End).draw(&mut buf, Rect::new(0, 0, 6, 1));
    assert_eq!(used, Rect::new(0, 0, 6, 1));
    assert_eq!(row(&buf, 0), "    ab");
}

#[test]
fn paragraph_lines_and_indent() {
    let mut buf = Buffer::empty(8, 3);
    let used = Paragraph::plain("one two three", Style::default())
        .wrap(Wrap::Words)
        .first_indent(2)
        .draw(&mut buf, Rect::new(0, 0, 8, 3));
    assert_eq!(used, Rect::new(0, 0, 8, 3));
    assert_eq!(row(&buf, 0), "  one   ");
    assert_eq!(row(&buf, 1), "two     ");
    assert_eq!(row(&buf, 2), "three   ");
    let ps = Paragraph::lines("line 1\nline 2", Style::from(Color::Red));
    assert_eq!(ps.len(), 2);
    assert_eq!(ps[1], Paragraph::plain("line 2", Style::from(Color::Red)));
    assert_eq!(Paragraph::lines("word", Style::default()), vec![Paragraph::plain("word", Style::default())]);
    // three lines do not fit in two rows: nothing more fit
    let mut buf = Buffer::empty(8, 2);
    let used = Paragraph::plain("one two three", Style::default())
        .wrap(Wrap::Words)
        .draw(&mut buf, Rect::new(0, 0, 5, 2));
    assert_eq!(used, Rect::default());
}

#[test]
fn list_stacks_items() {
    let mut buf = Buffer::empty(6, 2);
    let items = vec![Text::new("ab", Style::default()), Text::new("cd", Style::default())];
    let used = List::row(items).gap(1).draw(&mut buf, Rect::new(0, 0, 6, 2));
    assert_eq!(used, Rect::new(0, 0, 6, 1));
    assert_eq!(row(&buf, 0), "ab cd ");
    let used = List::new(vec![Dummy, Dummy], Direction::Vertical).draw(&mut buf, Rect::new(0, 0, 6, 2));
    assert_eq!(used, Rect::new(0, 0, 6, 2));
}

#[test]
fn style_changes() {
    let plain = Style::default();
    let bold = Style::default().bold(Some(true)).fg(Some(Color::Red));
    assert_eq!(write_style(&bold, &plain), vec![StyleCmd::Bold, StyleCmd::Background(Color::Reset), StyleCmd::Foreground(Color::Red)]);
    assert_eq!(
        write_style(&plain, &bold),
        vec![StyleCmd::ResetAttributes, StyleCmd::ResetAttributes, StyleCmd::Background(Color::Reset), StyleCmd::Foreground(Color::Reset)]
    );
    let curl = Style::default().underline(Some(true)).underline_kind(Some(UnderlineKind::Curl));
    assert_eq!(write_style(&curl, &plain)[0], StyleCmd::Underline(UnderlineKind::Curl));
}

#[test]
fn buffer_output_order() {
    let mut buf = Buffer::empty(2, 2);
    buf.set((0, 0), Some("界"), Style::default());
    buf.set((0, 1), Some("a"), Style::from(Color::Red));
    let ops = write_buffer(&buf);
    let red = Style::default().set(Style::from(Color::Red));
    assert_eq!(
        ops,
        vec![
            TermOp::MoveTo(0, 0),
            TermOp::SetStyle(Style::default(), Style::default()),
            TermOp::Write("界".to_string()),
            TermOp::SetStyle(red, Style::default()),
            TermOp::Write("a".to_string()),
            TermOp::SetStyle(Style::default(), red),
            TermOp::Write(" ".to_string()),
            TermOp::MoveTo(0, 2),
            TermOp::Reset,
            TermOp::Flush,
        ]
    );
}

#[test]
fn text_stays_in_its_rect() {
    let mut buf = Buffer::empty(10, 1);
    let zero_width = "\u{200b}".repeat(10);
    Text::new(&zero_width, Style::default()).draw(&mut buf, Rect::new(0, 0, 5, 1));
    for x in 5..10 {
        assert_eq!(glyph(&buf, x, 0), " ");
    }
    let mut buf = Buffer::empty(10, 1);
    Text::new("abcdefgh", Style::default()).align(Align::End).draw(&mut buf, Rect::new(2, 0, 4, 1));
    assert_eq!(row(&buf, 0), "  abcd    ");
}

#[test]
fn cell_in_place() {
    let mut buf = Buffer::empty(2, 2);
    buf.get_mut((1, 1)).unwrap().set(Some("z"), Style::from(Color::Red));
    assert_eq!(glyph(&buf, 1, 1), "z");
    assert_eq!(buf.get((1, 1)).unwrap().style.fg, Some(Color::Red));
    assert!(buf.get_mut((2, 0)).is_none());
}
