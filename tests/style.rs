use tuich::geometry::Side;
use tuich::style::{BorderKind, Color, Style, UnderlineKind};
use tuich::stylized::Stylized;
use tuich::text::Span;

#[test]
fn into_color() {
    assert_eq!(Color::from(()), Color::default());
    assert_eq!(Color::from((10, 20, 30)), Color::Rgb(10, 20, 30));
    assert_eq!(Color::from(10), Color::Ansi(10));
}

#[test]
fn into_style() {
    assert_eq!(Style::from(()), Style::default());
    assert_eq!(Style::from(Color::Red), Style::default().fg(Some(Color::Red)));
    assert_eq!(Style::from((Color::Green, ())), Style::new(Color::Green, Color::Reset));
    assert_eq!(Style::from((Color::Green, Color::Blue)), Style::new(Color::Green, Color::Blue));
}

#[test]
fn set_style() {
    let empty = Style::default();
    let fg = Style::default().fg(Some(Color::Gray));
    let attr = Style::default().bg(Some(Color::Reset)).bold(Some(true));

    let a = Style::default().fg(Some(Color::Red)).bg(Some(Color::Green));
    let b = Style::default().fg(Some(Color::Blue)).bold(Some(true));

    assert_eq!(empty.set(a), a);
    assert_eq!(empty.set(b), b);

    assert_eq!(fg.set(a), Style::new(Color::Red, Color::Green));
    assert_eq!(fg.set(b), Style::default().fg(Some(Color::Blue)).bold(Some(true)));

    assert_eq!(attr.set(a), Style::new(Color::Red, Color::Green).bold(Some(true)));
    assert_eq!(attr.set(b), Style::new(Color::Blue, Color::Reset).bold(Some(true)));
}

#[test]
fn merge_is_field_wise() {
    let base = Style::cleared();
    let over = Style {
        fg: Some(Color::Ansi(3)),
        bg: None,
        bold: Some(true),
        italic: None,
        reverse: None,
        underline: Some(true),
        underline_kind: Some(UnderlineKind::Dash),
    };
    let m = base.set(over);
    assert_eq!(m.fg, Some(Color::Ansi(3)));
    assert_eq!(m.bg, Some(Color::Reset));
    assert_eq!(m.bold, Some(true));
    assert_eq!(m.italic, Some(false));
    assert_eq!(m.reverse, Some(false));
    assert_eq!(m.underline, Some(true));
    assert_eq!(m.underline_kind, Some(UnderlineKind::Dash));
}

#[test]
fn contrast_foreground() {
    assert_eq!(Color::Black.with_contrast_fg(), Style::new(Color::LightGray, Color::Black));
    assert_eq!(Color::Red.with_contrast_fg(), Style::new(Color::Black, Color::Red));
    assert_eq!(Color::LightGray.with_contrast_fg(), Style::new(Color::Black, Color::LightGray));
    assert_eq!(
        Color::Rgb(255, 255, 255).with_contrast_fg(),
        Style::new(Color::Black, Color::Rgb(255, 255, 255))
    );
    assert_eq!(
        Color::Rgb(100, 255, 50).with_contrast_fg(),
        Style::new(Color::LightGray, Color::Rgb(100, 255, 50))
    );
    // (254 + 254 + 253) / 2 == 380: at the threshold the text is dark
    assert_eq!(
        Color::Rgb(254, 254, 253).with_contrast_fg(),
        Style::new(Color::Black, Color::Rgb(254, 254, 253))
    );
}

#[test]
fn colors_by_index() {
    assert_eq!(Color::from_index(0), Color::Reset);
    assert_eq!(Color::from_index(2), Color::Red);
    assert_eq!(Color::from_index(16), Color::LightGray);
    assert_eq!(Color::from_index(17), Color::Reset);
}

#[test]
fn border_glyphs() {
    let single = BorderKind::Single;
    let double = BorderKind::Double;
    let custom = BorderKind::Custom(['|', '+', '=', '+', '|', '*', '=', '*']);

    assert_eq!(single.char_at(Side::TopLeft), '┌');
    assert_eq!(double.char_at(Side::Bottom), '═');
    assert_eq!(custom.char_at(Side::BottomLeft), '*');
    assert_eq!(single.string_at(Side::Left), "│");
    assert_eq!(BorderKind::Rounded.chars()[3], '╮');
}

#[test]
fn stylized_shorthands() {
    assert_eq!(Color::Red.bold(), Style::default().fg(Some(Color::Red)).bold(Some(true)));
    assert_eq!(Color::Red.on_blue(), Style::default().fg(Some(Color::Red)).bg(Some(Color::Blue)));
    assert_eq!((Color::Green, Color::Black).light_red(), Style::new(Color::LightRed, Color::Black));
    let s = Stylized::italic(Span::new("hi", Style::default()));
    assert_eq!(s.get_style(), Style::default().italic(Some(true)));
    assert_eq!(s.text(), "hi");
    let u = Stylized::underline_kind(Color::Cyan, UnderlineKind::Dot);
    assert_eq!(u.underline_kind, Some(UnderlineKind::Dot));
}

#[test]
fn color_names() {
    assert_eq!(Color::Reset.name(), "reset");
    assert_eq!(Color::LightRed.name(), "light red");
    assert_eq!(Color::Rgb(10, 200, 5).name(), "rgb 10, 200, 5");
    assert_eq!(Color::Ansi(7).name(), "ansi 7");
    assert_eq!(Color::Ansi(255).name(), "ansi 255");
}
