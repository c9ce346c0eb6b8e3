//! Shorthands for styling anything that carries a style.
use vstd::prelude::*;
use crate::style::{Color, Style, UnderlineKind};
use crate::text::Span;
use crate::widget::label::Text;

verus! {

/// Something that can be given a style, with shorthands for each color and
/// attribute. Each shorthand changes one attribute of the current style and
/// applies the result.
pub trait Stylized: Sized {
    type Output;

    /// What applying `style` to `self` gives.
    spec fn styled(self, style: Style) -> Self::Output;

    /// The style that the shorthands start from.
    spec fn current_style(&self) -> Style;

    /// Applies a style
    fn style(self, style: Style) -> (r: Self::Output)
        ensures
            r == self.styled(style),
    ;

    /// The style that the shorthands start from
    fn get_style(&self) -> (r: Style)
        ensures
            r == self.current_style(),
    ;

    /// Sets the foreground color
    fn fg(self, color: Option<Color>) -> (r: Self::Output)
        ensures
            r == self.styled(Style { fg: color, ..self.current_style() }),
    {
        let style = self.get_style().fg(color);
        self.style(style)
    }

    /// Sets the background color
    fn bg(self, color: Option<Color>) -> (r: Self::Output)
        ensures
            r == self.styled(Style { bg: color, ..self.current_style() }),
    {
        let style = self.get_style().bg(color);
        self.style(style)
    }

    /// Resets the foreground to the terminal's default
    fn fg_reset(self) -> (r: Self::Output)
        ensures
            r == self.styled(Style { fg: Some(Color::Reset), ..self.current_style() }),
    {
        self.fg(Some(Color::Reset))
    }

    /// Resets the background to the terminal's default
    fn bg_reset(self) -> (r: Self::Output)
        ensures
            r == self.styled(Style { bg: Some(Color::Reset), ..self.current_style() }),
    {
        self.bg(Some(Color::Reset))
    }

    /// Sets a black foreground
    fn black(self) -> (r: Self::Output)
        ensures
            r == self.styled(Style { fg: Some(Color::Black), ..self.current_style() }),
    {
        self.fg(Some(Color::Black))
    }

    /// Sets a red foreground
    fn red(self) -> (r: Self::Output)
        ensures
            r == self.styled(Style { fg: Some(Color::Red), ..self.current_style() }),
    {
        self.fg(Some(Color::Red))
    }

    /// Sets a green foreground
    fn green(self) -> (r: Self::Output)
        ensures
            r == self.styled(Style { fg: Some(Color::Green), ..self.current_style() }),
    {
        self.fg(Some(Color::Green))
    }

    /// Sets a yellow foreground
    fn yellow(self) -> (r: Self::Output)
        ensures
            r == self.styled(Style { fg: Some(Color::Yellow), ..self.current_style() }),
    {
        self.fg(Some(Color::Yellow))
    }

    /// Sets a blue foreground
    fn blue(self) -> (r: Self::Output)
        ensures
            r == self.styled(Style { fg: Some(Color::Blue), ..self.current_style() }),
    {
        self.fg(Some(Color::Blue))
    }

    /// Sets a magenta foreground
    fn magenta(self) -> (r: Self::Output)
        ensures
            r == self.styled(Style { fg: Some(Color::Magenta), ..self.current_style() }),
    {
        self.fg(Some(Color::Magenta))
    }

    /// Sets a cyan foreground
    fn cyan(self) -> (r: Self::Output)
        ensures
            r == self.styled(Style { fg: Some(Color::Cyan), ..self.current_style() }),
    {
        self.fg(Some(Color::Cyan))
    }

    /// Sets a gray foreground
    fn gray(self) -> (r: Self::Output)
        ensures
            r == self.styled(Style { fg: Some(Color::Gray), ..self.current_style() }),
    {
        self.fg(Some(Color::Gray))
    }

    /// Sets a light black foreground
    fn light_black(self) -> (r: Self::Output)
        ensures
            r == self.styled(Style { fg: Some(Color::LightBlack), ..self.current_style() }),
    {
        self.fg(Some(Color::LightBlack))
    }

    /// Sets a light red foreground
    fn light_red(self) -> (r: Self::Output)
        ensures
            r == self.styled(Style { fg: Some(Color::LightRed), ..self.current_style() }),
    {
        self.fg(Some(Color::LightRed))
    }

    /// Sets a light green foreground
    fn light_green(self) -> (r: Self::Output)
        ensures
            r == self.styled(Style { fg: Some(Color::LightGreen), ..self.current_style() }),
    {
        self.fg(Some(Color::LightGreen))
    }

    /// Sets a light yellow foreground
    fn light_yellow(self) -> (r: Self::Output)
        ensures
            r == self.styled(Style { fg: Some(Color::LightYellow), ..self.current_style() }),
    {
        self.fg(Some(Color::LightYellow))
    }

    /// Sets a light blue foreground
    fn light_blue(self) -> (r: Self::Output)
        ensures
            r == self.styled(Style { fg: Some(Color::LightBlue), ..self.current_style() }),
    {
        self.fg(Some(Color::LightBlue))
    }

    /// Sets a light magenta foreground
    fn light_magenta(self) -> (r: Self::Output)
        ensures
            r == self.styled(Style { fg: Some(Color::LightMagenta), ..self.current_style() }),
    {
        self.fg(Some(Color::LightMagenta))
    }

    /// Sets a light cyan foreground
    fn light_cyan(self) -> (r: Self::Output)
        ensures
            r == self.styled(Style { fg: Some(Color::LightCyan), ..self.current_style() }),
    {
        self.fg(Some(Color::LightCyan))
    }

    /// Sets a light gray foreground
    fn light_gray(self) -> (r: Self::Output)
        ensures
            r == self.styled(Style { fg: Some(Color::LightGray), ..self.current_style() }),
    {
        self.fg(Some(Color::LightGray))
    }

    /// Sets a black background
    fn on_black(self) -> (r: Self::Output)
        ensures
            r == self.styled(Style { bg: Some(Color::Black), ..self.current_style() }),
    {
        self.bg(Some(Color::Black))
    }

    /// Sets a red background
    fn on_red(self) -> (r: Self::Output)
        ensures
            r == self.styled(Style { bg: Some(Color::Red), ..self.current_style() }),
    {
        self.bg(Some(Color::Red))
    }

    /// Sets a green background
    fn on_green(self) -> (r: Self::Output)
        ensures
            r == self.styled(Style { bg: Some(Color::Green), ..self.current_style() }),
    {
        self.bg(Some(Color::Green))
    }

    /// Sets a yellow background
    fn on_yellow(self) -> (r: Self::Output)
        ensures
            r == self.styled(Style { bg: Some(Color::Yellow), ..self.current_style() }),
    {
        self.bg(Some(Color::Yellow))
    }

    /// Sets a blue background
    fn on_blue(self) -> (r: Self::Output)
        ensures
            r == self.styled(Style { bg: Some(Color::Blue), ..self.current_style() }),
    {
        self.bg(Some(Color::Blue))
    }

    /// Sets a magenta background
    fn on_magenta(self) -> (r: Self::Output)
        ensures
            r == self.styled(Style { bg: Some(Color::Magenta), ..self.current_style() }),
    {
        self.bg(Some(Color::Magenta))
    }

    /// Sets a cyan background
    fn on_cyan(self) -> (r: Self::Output)
        ensures
            r == self.styled(Style { bg: Some(Color::Cyan), ..self.current_style() }),
    {
        self.bg(Some(Color::Cyan))
    }

    /// Sets a gray background
    fn on_gray(self) -> (r: Self::Output)
        ensures
            r == self.styled(Style { bg: Some(Color::Gray), ..self.current_style() }),
    {
        self.bg(Some(Color::Gray))
    }

    /// Sets a light black background
    fn on_light_black(self) -> (r: Self::Output)
        ensures
            r == self.styled(Style { bg: Some(Color::LightBlack), ..self.current_style() }),
    {
        self.bg(Some(Color::LightBlack))
    }

    /// Sets a light red background
    fn on_light_red(self) -> (r: Self::Output)
        ensures
            r == self.styled(Style { bg: Some(Color::LightRed), ..self.current_style() }),
    {
        self.bg(Some(Color::LightRed))
    }

    /// Sets a light green background
    fn on_light_green(self) -> (r: Self::Output)
        ensures
            r == self.styled(Style { bg: Some(Color::LightGreen), ..self.current_style() }),
    {
        self.bg(Some(Color::LightGreen))
    }

    /// Sets a light yellow background
    fn on_light_yellow(self) -> (r: Self::Output)
        ensures
            r == self.styled(Style { bg: Some(Color::LightYellow), ..self.current_style() }),
    {
        self.bg(Some(Color::LightYellow))
    }

    /// Sets a light blue background
    fn on_light_blue(self) -> (r: Self::Output)
        ensures
            r == self.styled(Style { bg: Some(Color::LightBlue), ..self.current_style() }),
    {
        self.bg(Some(Color::LightBlue))
    }

    /// Sets a light magenta background
    fn on_light_magenta(self) -> (r: Self::Output)
        ensures
            r == self.styled(Style { bg: Some(Color::LightMagenta), ..self.current_style() }),
    {
        self.bg(Some(Color::LightMagenta))
    }

    /// Sets a light cyan background
    fn on_light_cyan(self) -> (r: Self::Output)
        ensures
            r == self.styled(Style { bg: Some(Color::LightCyan), ..self.current_style() }),
    {
        self.bg(Some(Color::LightCyan))
    }

    /// Sets a light gray background
    fn on_light_gray(self) -> (r: Self::Output)
        ensures
            r == self.styled(Style { bg: Some(Color::LightGray), ..self.current_style() }),
    {
        self.bg(Some(Color::LightGray))
    }

    /// Turns bold on
    fn bold(self) -> (r: Self::Output)
        ensures
            r == self.styled(Style { bold: Some(true), ..self.current_style() }),
    {
        let style = self.get_style().bold(Some(true));
        self.style(style)
    }

    /// Turns italic on
    fn italic(self) -> (r: Self::Output)
        ensures
            r == self.styled(Style { italic: Some(true), ..self.current_style() }),
    {
        let style = self.get_style().italic(Some(true));
        self.style(style)
    }

    /// Turns reverse on
    fn reverse(self) -> (r: Self::Output)
        ensures
            r == self.styled(Style { reverse: Some(true), ..self.current_style() }),
    {
        let style = self.get_style().reverse(Some(true));
        self.style(style)
    }

    /// Turns underline on
    fn underline(self) -> (r: Self::Output)
        ensures
            r == self.styled(Style { underline: Some(true), ..self.current_style() }),
    {
        let style = self.get_style().underline(Some(true));
        self.style(style)
    }

    /// Sets the underline kind
    fn underline_kind(self, kind: UnderlineKind) -> (r: Self::Output)
        ensures
            r == self.styled(Style { underline_kind: Some(kind), ..self.current_style() }),
    {
        let style = self.get_style().underline_kind(Some(kind));
        self.style(style)
    }
}

impl Stylized for Color {
    type Output = Style;

    /// A color styled is just the style.
    open spec fn styled(self, style: Style) -> Style {
        style
    }

    /// A color stands for a style with it as foreground.
    open spec fn current_style(&self) -> Style {
        Style { fg: Some(*self), ..Style::empty_spec() }
    }

    fn style(self, style: Style) -> (r: Style) {
        style
    }

    fn get_style(&self) -> (r: Style) {
        Style::empty().fg(Some(*self))
    }
}

impl Stylized for (Color, Color) {
    type Output = Style;

    open spec fn styled(self, style: Style) -> Style {
        style
    }

    /// A pair stands for a style with these foreground and background colors.
    open spec fn current_style(&self) -> Style {
        Style::new_spec(self.0, self.1)
    }

    fn style(self, style: Style) -> (r: Style) {
        style
    }

    fn get_style(&self) -> (r: Style) {
        Style::new(self.0, self.1)
    }
}

impl Stylized for Span {
    type Output = Span;

    open spec fn styled(self, style: Style) -> Span {
        self.with_style_spec(style)
    }

    open spec fn current_style(&self) -> Style {
        self@.1
    }

    fn style(self, style: Style) -> (r: Span) {
        self.restyle(style)
    }

    fn get_style(&self) -> (r: Style) {
        self.style()
    }
}

impl Stylized for Text {
    type Output = Text;

    open spec fn styled(self, style: Style) -> Text {
        Text { style, ..self }
    }

    open spec fn current_style(&self) -> Style {
        self.style
    }

    fn style(self, style: Style) -> (r: Text) {
        Text { style, ..self }
    }

    fn get_style(&self) -> (r: Style) {
        self.style
    }
}

} // verus!
