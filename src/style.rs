//! Colors, underline kinds, border glyph sets and the `Style` record with its
//! right-biased merge.
use vstd::prelude::*;
use crate::geometry::{side_index, Side};
use crate::unicode::char_to_string;

verus! {

/// A terminal color: one of sixteen named colors (plus the terminal's own
/// default, `Reset`), a truecolor triple, or an 8-bit palette index.
#[derive(Debug, Clone, Copy, PartialEq, Eq, Structural)]
pub enum Color {
    /// The terminal's default color
    Reset,
    Black,
    Red,
    Green,
    Yellow,
    Blue,
    Magenta,
    Cyan,
    Gray,
    LightBlack,
    LightRed,
    LightGreen,
    LightYellow,
    LightBlue,
    LightMagenta,
    LightCyan,
    LightGray,
    Rgb(u8, u8, u8),
    Ansi(u8),
}

/// The named color at position `index` of the palette order, `Reset` past its end.
pub open spec fn color_at_index(index: int) -> Color {
    if index == 1 { Color::Black }
    else if index == 2 { Color::Red }
    else if index == 3 { Color::Green }
    else if index == 4 { Color::Yellow }
    else if index == 5 { Color::Blue }
    else if index == 6 { Color::Magenta }
    else if index == 7 { Color::Cyan }
    else if index == 8 { Color::Gray }
    else if index == 9 { Color::LightBlack }
    else if index == 10 { Color::LightRed }
    else if index == 11 { Color::LightGreen }
    else if index == 12 { Color::LightYellow }
    else if index == 13 { Color::LightBlue }
    else if index == 14 { Color::LightMagenta }
    else if index == 15 { Color::LightCyan }
    else if index == 16 { Color::LightGray }
    else { Color::Reset }
}

/// Luminance threshold, out of the 765 that three full channels sum to.
pub const CONTRAST_THRESHOLD: u16 = 380;

/// The foreground that reads well on background `bg`: light gray on dark
/// backgrounds, black on bright or colored ones. For a truecolor background
/// half the channel sum is compared against the threshold.
pub open spec fn contrast_fg(bg: Color) -> Color {
    match bg {
        Color::Reset | Color::Black | Color::LightBlack | Color::Gray => Color::LightGray,
        Color::Rgb(r, g, b) => if (r + g + b) / 2 < CONTRAST_THRESHOLD as int {
            Color::LightGray
        } else {
            Color::Black
        },
        _ => Color::Black,
    }
}

impl Color {
    /// The named color at `index` (0 is `Reset`, 16 is `LightGray`);
    /// `Reset` when the index is too large.
    pub fn from_index(index: usize) -> (r: Self)
        ensures
            r == color_at_index(index as int),
    {
        match index {
            1 => Color::Black,
            2 => Color::Red,
            3 => Color::Green,
            4 => Color::Yellow,
            5 => Color::Blue,
            6 => Color::Magenta,
            7 => Color::Cyan,
            8 => Color::Gray,
            9 => Color::LightBlack,
            10 => Color::LightRed,
            11 => Color::LightGreen,
            12 => Color::LightYellow,
            13 => Color::LightBlue,
            14 => Color::LightMagenta,
            15 => Color::LightCyan,
            16 => Color::LightGray,
            _ => Color::Reset,
        }
    }

    /// A style with this color as background and a readable foreground.
    pub fn with_contrast_fg(self) -> (r: Style)
        ensures
            r == Style::new_spec(contrast_fg(self), self),
    {
        let fg = match self {
            Color::Reset | Color::Black | Color::LightBlack | Color::Gray => Color::LightGray,
            Color::Rgb(r, g, b) => {
                let mid: u16 = (r as u16 + g as u16 + b as u16) / 2;
                if mid < CONTRAST_THRESHOLD {
                    Color::LightGray
                } else {
                    Color::Black
                }
            },
            _ => Color::Black,
        };
        Style::new(fg, self)
    }
}

/// The decimal digit for `d`.
pub open spec fn digit_char(d: int) -> char {
    if d == 0 { '0' }
    else if d == 1 { '1' }
    else if d == 2 { '2' }
    else if d == 3 { '3' }
    else if d == 4 { '4' }
    else if d == 5 { '5' }
    else if d == 6 { '6' }
    else if d == 7 { '7' }
    else if d == 8 { '8' }
    else { '9' }
}

/// `v` written in decimal, without leading zeros.
pub open spec fn decimal(v: int) -> Seq<char> {
    if v >= 100 {
        seq![digit_char(v / 100), digit_char(v / 10 % 10), digit_char(v % 10)]
    } else if v >= 10 {
        seq![digit_char(v / 10), digit_char(v % 10)]
    } else {
        seq![digit_char(v)]
    }
}

/// The name of a color, as shown to people.
pub open spec fn color_name(c: Color) -> Seq<char> {
    match c {
        Color::Reset => "reset"@,
        Color::Black => "black"@,
        Color::Red => "red"@,
        Color::Green => "green"@,
        Color::Yellow => "yellow"@,
        Color::Blue => "blue"@,
        Color::Magenta => "magenta"@,
        Color::Cyan => "cyan"@,
        Color::Gray => "gray"@,
        Color::LightBlack => "light black"@,
        Color::LightRed => "light red"@,
        Color::LightGreen => "light green"@,
        Color::LightYellow => "light yellow"@,
        Color::LightBlue => "light blue"@,
        Color::LightMagenta => "light magenta"@,
        Color::LightCyan => "light cyan"@,
        Color::LightGray => "light gray"@,
        Color::Rgb(r, g, b) => "rgb "@ + decimal(r as int) + ", "@ + decimal(g as int) + ", "@ + decimal(
            b as int,
        ),
        Color::Ansi(v) => "ansi "@ + decimal(v as int),
    }
}

fn digit(d: u8) -> (r: char)
    requires
        d < 10,
    ensures
        r == digit_char(d as int),
{
    match d {
        0 => '0',
        1 => '1',
        2 => '2',
        3 => '3',
        4 => '4',
        5 => '5',
        6 => '6',
        7 => '7',
        8 => '8',
        _ => '9',
    }
}

fn push_decimal(s: &mut String, v: u8)
    ensures
        final(s)@ == old(s)@ + decimal(v as int),
{
    if v >= 100 {
        s.append(char_to_string(digit(v / 100)).as_str());
    }
    if v >= 10 {
        s.append(char_to_string(digit(v / 10 % 10)).as_str());
    }
    s.append(char_to_string(digit(v % 10)).as_str());
    assert(final(s)@ =~= old(s)@ + decimal(v as int));
}

fn owned(lit: &str) -> (r: String)
    ensures
        r@ == lit@,
{
    String::from_str(lit)
}

impl Color {
    /// The name of the color, as shown to people (`"light red"`,
    /// `"rgb 1, 2, 3"`, `"ansi 7"`)
    pub fn name(&self) -> (r: String)
        ensures
            r@ == color_name(*self),
    {
        match self {
            Color::Reset => owned("reset"),
            Color::Black => owned("black"),
            Color::Red => owned("red"),
            Color::Green => owned("green"),
            Color::Yellow => owned("yellow"),
            Color::Blue => owned("blue"),
            Color::Magenta => owned("magenta"),
            Color::Cyan => owned("cyan"),
            Color::Gray => owned("gray"),
            Color::LightBlack => owned("light black"),
            Color::LightRed => owned("light red"),
            Color::LightGreen => owned("light green"),
            Color::LightYellow => owned("light yellow"),
            Color::LightBlue => owned("light blue"),
            Color::LightMagenta => owned("light magenta"),
            Color::LightCyan => owned("light cyan"),
            Color::LightGray => owned("light gray"),
            Color::Rgb(r, g, b) => {
                let mut s = owned("rgb ");
                push_decimal(&mut s, *r);
                s.append(", ");
                push_decimal(&mut s, *g);
                s.append(", ");
                push_decimal(&mut s, *b);
                s
            },
            Color::Ansi(v) => {
                let mut s = owned("ansi ");
                push_decimal(&mut s, *v);
                s
            },
        }
    }
}

impl Default for Color {
    fn default() -> (r: Self)
        ensures
            r == Color::Reset,
    {
        Color::Reset
    }
}

impl From<()> for Color {
    fn from(v: ()) -> Self {
        Color::Reset
    }
}

impl vstd::std_specs::convert::FromSpecImpl<()> for Color {
    open spec fn obeys_from_spec() -> bool {
        true
    }

    open spec fn from_spec(v: ()) -> Self {
        Color::Reset
    }
}

impl From<u8> for Color {
    /// A palette index
    fn from(v: u8) -> Self {
        Color::Ansi(v)
    }
}

impl vstd::std_specs::convert::FromSpecImpl<u8> for Color {
    open spec fn obeys_from_spec() -> bool {
        true
    }

    open spec fn from_spec(v: u8) -> Self {
        Color::Ansi(v)
    }
}

impl From<(u8, u8, u8)> for Color {
    /// A truecolor triple `(red, green, blue)`
    fn from(v: (u8, u8, u8)) -> Self {
        Color::Rgb(v.0, v.1, v.2)
    }
}

impl vstd::std_specs::convert::FromSpecImpl<(u8, u8, u8)> for Color {
    open spec fn obeys_from_spec() -> bool {
        true
    }

    open spec fn from_spec(v: (u8, u8, u8)) -> Self {
        Color::Rgb(v.0, v.1, v.2)
    }
}

/// Underline kind
#[derive(Debug, Clone, Copy, PartialEq, Eq, Structural)]
pub enum UnderlineKind {
    Line,
    Curl,
    Dash,
    Dot,
}

impl Default for UnderlineKind {
    fn default() -> (r: Self)
        ensures
            r == UnderlineKind::Line,
    {
        UnderlineKind::Line
    }
}

/// A set of visual attributes, each of which may be unset (`None`), in which
/// case it is inherited when merged onto another style.
#[derive(Debug, Clone, Copy, PartialEq, Eq, Structural)]
pub struct Style {
    pub fg: Option<Color>,
    pub bg: Option<Color>,
    pub bold: Option<bool>,
    pub italic: Option<bool>,
    pub reverse: Option<bool>,
    pub underline: Option<bool>,
    pub underline_kind: Option<UnderlineKind>,
}

/// `over` if it is set, else `base`.
pub open spec fn coalesce<T>(base: Option<T>, over: Option<T>) -> Option<T> {
    if over is Some { over } else { base }
}

/// Field-wise merge in which the override's set attributes win.
pub open spec fn merge(base: Style, over: Style) -> Style {
    Style {
        fg: coalesce(base.fg, over.fg),
        bg: coalesce(base.bg, over.bg),
        bold: coalesce(base.bold, over.bold),
        italic: coalesce(base.italic, over.italic),
        reverse: coalesce(base.reverse, over.reverse),
        underline: coalesce(base.underline, over.underline),
        underline_kind: coalesce(base.underline_kind, over.underline_kind),
    }
}

impl Style {
    pub open spec fn empty_spec() -> Style {
        Style {
            fg: None,
            bg: None,
            bold: None,
            italic: None,
            reverse: None,
            underline: None,
            underline_kind: Some(UnderlineKind::Line),
        }
    }

    pub open spec fn new_spec(fg: Color, bg: Color) -> Style {
        Style { fg: Some(fg), bg: Some(bg), ..Style::empty_spec() }
    }

    /// A style with both colors set and every other attribute unset.
    pub fn new(fg: Color, bg: Color) -> (r: Self)
        ensures
            r == Style::new_spec(fg, bg),
    {
        Style { fg: Some(fg), bg: Some(bg), ..Style::empty() }
    }

    /// A style that sets nothing but the (inert) underline kind.
    pub fn empty() -> (r: Self)
        ensures
            r == Style::empty_spec(),
    {
        Style {
            fg: None,
            bg: None,
            bold: None,
            italic: None,
            reverse: None,
            underline: None,
            underline_kind: Some(UnderlineKind::Line),
        }
    }

    /// A style that sets every attribute to the terminal's plain rendering.
    pub fn cleared() -> (r: Self)
        ensures
            r == (Style {
                fg: Some(Color::Reset),
                bg: Some(Color::Reset),
                bold: Some(false),
                italic: Some(false),
                reverse: Some(false),
                underline: Some(false),
                underline_kind: Some(UnderlineKind::Line),
            }),
    {
        Style {
            fg: Some(Color::Reset),
            bg: Some(Color::Reset),
            bold: Some(false),
            italic: Some(false),
            reverse: Some(false),
            underline: Some(false),
            underline_kind: Some(UnderlineKind::Line),
        }
    }

    /// Merges `style` onto this one: each attribute that `style` sets wins,
    /// each it leaves unset keeps this style's value.
    pub fn set(self, style: Style) -> (r: Self)
        ensures
            r == merge(self, style),
            r.fg == (if style.fg is Some { style.fg } else { self.fg }),
            r.bg == (if style.bg is Some { style.bg } else { self.bg }),
            r.bold == (if style.bold is Some { style.bold } else { self.bold }),
            r.italic == (if style.italic is Some { style.italic } else { self.italic }),
            r.reverse == (if style.reverse is Some { style.reverse } else { self.reverse }),
            r.underline == (if style.underline is Some { style.underline } else { self.underline }),
            r.underline_kind == (if style.underline_kind is Some {
                style.underline_kind
            } else {
                self.underline_kind
            }),
    {
        Style {
            fg: if style.fg.is_some() { style.fg } else { self.fg },
            bg: if style.bg.is_some() { style.bg } else { self.bg },
            bold: if style.bold.is_some() { style.bold } else { self.bold },
            italic: if style.italic.is_some() { style.italic } else { self.italic },
            reverse: if style.reverse.is_some() { style.reverse } else { self.reverse },
            underline: if style.underline.is_some() { style.underline } else { self.underline },
            underline_kind: if style.underline_kind.is_some() {
                style.underline_kind
            } else {
                self.underline_kind
            },
        }
    }

    pub fn fg(self, color: Option<Color>) -> (r: Self)
        ensures
            r == (Style { fg: color, ..self }),
    {
        Style { fg: color, ..self }
    }

    pub fn bg(self, color: Option<Color>) -> (r: Self)
        ensures
            r == (Style { bg: color, ..self }),
    {
        Style { bg: color, ..self }
    }

    pub fn bold(self, value: Option<bool>) -> (r: Self)
        ensures
            r == (Style { bold: value, ..self }),
    {
        Style { bold: value, ..self }
    }

    pub fn italic(self, value: Option<bool>) -> (r: Self)
        ensures
            r == (Style { italic: value, ..self }),
    {
        Style { italic: value, ..self }
    }

    pub fn reverse(self, value: Option<bool>) -> (r: Self)
        ensures
            r == (Style { reverse: value, ..self }),
    {
        Style { reverse: value, ..self }
    }

    pub fn underline(self, value: Option<bool>) -> (r: Self)
        ensures
            r == (Style { underline: value, ..self }),
    {
        Style { underline: value, ..self }
    }

    pub fn underline_kind(self, kind: Option<UnderlineKind>) -> (r: Self)
        ensures
            r == (Style { underline_kind: kind, ..self }),
    {
        Style { underline_kind: kind, ..self }
    }
}

impl Default for Style {
    /// The empty style: nothing set, so merging it changes nothing.
    fn default() -> (r: Self)
        ensures
            r == Style::empty_spec(),
    {
        Style::empty()
    }
}

impl From<()> for Style {
    fn from(v: ()) -> Self {
        Style::empty()
    }
}

impl vstd::std_specs::convert::FromSpecImpl<()> for Style {
    open spec fn obeys_from_spec() -> bool {
        true
    }

    open spec fn from_spec(v: ()) -> Self {
        Style::empty_spec()
    }
}

impl From<Color> for Style {
    /// A style with just the foreground set
    fn from(v: Color) -> Self {
        Style::empty().fg(Some(v))
    }
}

impl vstd::std_specs::convert::FromSpecImpl<Color> for Style {
    open spec fn obeys_from_spec() -> bool {
        true
    }

    open spec fn from_spec(v: Color) -> Self {
        Style { fg: Some(v), ..Style::empty_spec() }
    }
}

impl From<(Color, Color)> for Style {
    /// A style with foreground and background set
    fn from(v: (Color, Color)) -> Self {
        Style::new(v.0, v.1)
    }
}

impl vstd::std_specs::convert::FromSpecImpl<(Color, Color)> for Style {
    open spec fn obeys_from_spec() -> bool {
        true
    }

    open spec fn from_spec(v: (Color, Color)) -> Self {
        Style::new_spec(v.0, v.1)
    }
}

impl From<(Color, ())> for Style {
    /// A style with the foreground set and the background reset
    fn from(v: (Color, ())) -> Self {
        Style::new(v.0, Color::Reset)
    }
}

impl vstd::std_specs::convert::FromSpecImpl<(Color, ())> for Style {
    open spec fn obeys_from_spec() -> bool {
        true
    }

    open spec fn from_spec(v: (Color, ())) -> Self {
        Style::new_spec(v.0, Color::Reset)
    }
}

/// Border glyph set
#[derive(Debug, Clone, Copy, PartialEq, Eq)]
pub enum BorderKind {
    Single,
    Double,
    Rounded,
    Thick,
    Block,
    /// `[left, top-left, top, top-right, right, bottom-right, bottom, bottom-left]`
    Custom([char; 8]),
}

/// Glyphs of a border kind, in the order of `Side`.
pub open spec fn border_glyphs(kind: BorderKind) -> Seq<char> {
    match kind {
        BorderKind::Single => seq!['│', '┌', '─', '┐', '│', '┘', '─', '└'],
        BorderKind::Double => seq!['║', '╔', '═', '╗', '║', '╝', '═', '╚'],
        BorderKind::Rounded => seq!['│', '╭', '─', '╮', '│', '╯', '─', '╰'],
        BorderKind::Thick => seq!['┃', '┏', '━', '┓', '┃', '┛', '━', '┗'],
        BorderKind::Block => seq!['█', '█', '█', '█', '█', '█', '█', '█'],
        BorderKind::Custom(chars) => chars@,
    }
}

impl Default for BorderKind {
    fn default() -> (r: Self)
        ensures
            r == BorderKind::Single,
    {
        BorderKind::Single
    }
}

impl BorderKind {
    /// The eight glyphs, in the order of `Side`
    pub fn chars(&self) -> (r: [char; 8])
        ensures
            r@ == border_glyphs(*self),
    {
        let r = match self {
            BorderKind::Single => ['│', '┌', '─', '┐', '│', '┘', '─', '└'],
            BorderKind::Double => ['║', '╔', '═', '╗', '║', '╝', '═', '╚'],
            BorderKind::Rounded => ['│', '╭', '─', '╮', '│', '╯', '─', '╰'],
            BorderKind::Thick => ['┃', '┏', '━', '┓', '┃', '┛', '━', '┗'],
            BorderKind::Block => ['█', '█', '█', '█', '█', '█', '█', '█'],
            BorderKind::Custom(chars) => *chars,
        };
        assert(r@ =~= border_glyphs(*self));
        r
    }

    /// The glyph drawn on one side
    pub fn char_at(&self, side: Side) -> (r: char)
        ensures
            r == border_glyphs(*self)[side_index(side)],
    {
        let chars = self.chars();
        chars[side.index()]
    }

    /// The glyph drawn on one side, as a string
    pub fn string_at(&self, side: Side) -> (r: String)
        ensures
            r@ == seq![border_glyphs(*self)[side_index(side)]],
    {
        char_to_string(self.char_at(side))
    }
}

} // verus!
