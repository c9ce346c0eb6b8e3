use tuich::style::{Color, Style};
use tuich::text::{Line, Span};
use tuich::wrap::Wrap;

fn line(s: &str) -> Line {
    Line::new(vec![Span::new(s, Style::default())])
}

fn spans(s: &str) -> Vec<Span> {
    vec![Span::new(s, Style::default())]
}

#[test]
fn wrapping() {
    let a = spans("😄The funny 😄thing about 😄living 😄is nobody could do it😄 alone...");
    let a_long = spans("The funnythingaboutlivingis nobody could do it alone...");
    let b = spans("𝓽𝓱𝓲𝓼 𝓽𝓮𝔁𝓽 𝔀𝓪𝓼 𝔀𝓻𝓲𝓽𝓽𝓮𝓷 𝓽𝓸 𝓽𝓮𝓼𝓽 𝓽𝓮𝔁𝓽 𝔀𝓻𝓪𝓹𝓹𝓲𝓷𝓰 𝓲𝓷 𝓽𝓾𝓲𝓬𝓱!");

    assert_eq!(Wrap::Words.calc_spans(&a, 20, None, 0, 0), vec![
        line("😄The funny 😄thing"),
        line("about 😄living 😄is"),
        line("nobody could do it😄"),
        line("alone..."),
    ], "Words wrap A");
    assert_eq!(Wrap::Break.calc_spans(&a, 20, None, 0, 0), vec![
        line("😄The funny 😄thing ab"),
        line("out 😄living 😄is nobo"),
        line("dy could do it😄 alon"),
        line("e..."),
    ], "Break wrap A");

    assert_eq!(Wrap::Words.calc_spans(&a_long, 20, None, 0, 0), vec![
        line("The"),
        line("funnythingaboutlivingis"),
        line("nobody could do it"),
        line("alone..."),
    ], "Words wrap A long");
    assert_eq!(Wrap::BreakWords.calc_spans(&a_long, 20, None, 0, 0), vec![
        line("The"),
        line("funnythingaboutlivin"),
        line("gis nobody could do"),
        line("it alone..."),
    ], "Break words wrap A long");

    assert_eq!(Wrap::Words.calc_spans(&b, 20, None, 0, 0), vec![
        line("𝓽𝓱𝓲𝓼 𝓽𝓮𝔁𝓽 𝔀𝓪𝓼"),
        line("𝔀𝓻𝓲𝓽𝓽𝓮𝓷 𝓽𝓸 𝓽𝓮𝓼𝓽"),
        line("𝓽𝓮𝔁𝓽 𝔀𝓻𝓪𝓹𝓹𝓲𝓷𝓰 𝓲𝓷"),
        line("𝓽𝓾𝓲𝓬𝓱!"),
    ], "Words wrap B");
    assert_eq!(Wrap::Break.calc_spans(&b, 20, None, 0, 0), vec![
        line("𝓽𝓱𝓲𝓼 𝓽𝓮𝔁𝓽 𝔀𝓪𝓼 𝔀𝓻𝓲𝓽𝓽𝓮"),
        line("𝓷 𝓽𝓸 𝓽𝓮𝓼𝓽 𝓽𝓮𝔁𝓽 𝔀𝓻𝓪𝓹𝓹"),
        line("𝓲𝓷𝓰 𝓲𝓷 𝓽𝓾𝓲𝓬𝓱!"),
    ], "Break wrap B");

    assert_eq!(Wrap::Break.calc_spans(&spans("small text"), 20, None, 0, 0), vec![
        line("small text"),
    ], "Break wrap small");
    assert_eq!(Wrap::Words.calc_spans(&spans("small text"), 20, None, 0, 0), vec![
        line("small text"),
    ], "Words wrap small");
    }

#[test]
fn words_wrap_width() {
    let text = "The funny thing about living is nobody could do it alone...";
    let lines = Wrap::Words.calc(text, 20, None, 0, 0);
    assert_eq!(lines, vec!["The funny thing", "about living is", "nobody could do it", "alone..."]);
    let mut rebuilt: Vec<&str> = Vec::new();
    for l in &lines {
        assert!(l.chars().count() <= 20);
        assert!(!l.starts_with(' ') && !l.ends_with(' '));
        rebuilt.extend(l.split(' '));
    }
    let words: Vec<&str> = text.split(' ').collect();
    assert_eq!(rebuilt, words);
}

#[test]
fn styled_spans_wrap() {
    let text = vec![
        Span::new("The funny thing about living ", Style::from(Color::Red)),
        Span::new("is nobody could do it ", Style::default()),
        Span::new("alone...", Style::default().italic(Some(true))),
    ];
    assert_eq!(
        Wrap::Words.calc_spans(&text, 20, None, 0, 0),
        vec![
            Line::new(vec![Span::new("The funny thing", Style::from(Color::Red))]),
            Line::new(vec![
                Span::new("about living ", Style::from(Color::Red)),
                Span::new("is", Style::default()),
            ]),
            Line::new(vec![Span::new("nobody could do it", Style::default())]),
            Line::new(vec![Span::new("alone...", Style::default().italic(Some(true)))]),
        ]
    );
}

#[test]
fn wrap_limits_and_indents() {
    let text = "aaa bbb ccc ddd";
    assert_eq!(Wrap::Words.calc(text, 8, None, 0, 0), vec!["aaa bbb", "ccc ddd"]);
    assert_eq!(Wrap::Words.calc(text, 7, Some(2), 0, 0), vec!["aaa", "bbb"]);
    assert_eq!(Wrap::Words.calc(text, 7, Some(1), 0, 0), vec!["aaa"]);
    assert_eq!(Wrap::Words.calc(text, 7, Some(0), 0, 0), Vec::<String>::new());
    assert_eq!(Wrap::Words.calc(text, 8, None, 4, 0), vec!["aaa", "bbb ccc", "ddd"]);
    assert_eq!(Wrap::NoWrap.calc(text, 3, None, 0, 0), vec!["aaa bbb ccc ddd"]);
    assert_eq!(Wrap::Break.calc("abcdef", 4, None, 0, 0), vec!["abcd", "ef"]);
    assert_eq!(Wrap::Words.calc("", 4, None, 0, 0), Vec::<String>::new());
    assert_eq!(Wrap::Break.calc("abc", 0, None, 0, 0), vec!["a", "b", "c"]);
}

#[test]
fn span_width_counts_graphemes() {
    let s = Span::new("e\u{301}a", Style::default());
    assert_eq!(s.width(), 2);
    assert_eq!(s.len(), 4);
    assert_eq!(line("ab").width, 2);
}

#[test]
fn wrap_counts_grapheme_clusters() {
    let e = "e\u{301}";
    let text = format!("{e}{e}{e}");
    assert_eq!(Wrap::Break.calc(&text, 2, None, 0, 0), vec![format!("{e}{e}"), e.to_string()]);
    let words = format!("{e}{e} {e}{e}");
    assert_eq!(Wrap::Words.calc(&words, 3, None, 0, 0), vec![format!("{e}{e}"), format!("{e}{e}")]);
    assert_eq!(Wrap::NoWrap.calc(&words, 3, None, 0, 0), vec![words.clone()]);
    let lines = Wrap::BreakWords.calc_spans(&spans(&text), 2, None, 0, 0);
    assert_eq!(lines, vec![line(&format!("{e}{e}")), line(e)]);
    assert!(lines.iter().all(|l| l.width <= 2));
}
