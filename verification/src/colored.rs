//! Conversion to and from the style types of the `colored` crate.
//!
//! `colored` has a symbolic constant for each of the sixteen ANSI colors, so ANSI colors are
//! mapped onto those and never go through RGB components.  Everything that this crate can
//! express, `colored` can express too, and the conversions of this module lose nothing of
//! it: see [`lemma_color_round_trip`] and [`lemma_string_round_trip`].
//!
//! The types of this module hold as plain values what `colored::Color`, `colored::Style` and
//! `colored::ColoredString` hold.  `colored` decides by the terminal and the environment
//! whether a `ColoredString` is displayed with control sequences, so displaying is left to
//! the caller: build the `ColoredString` from a [`ColoredText`] and write it.

use vstd::prelude::*;
use vstd::std_specs::convert::FromSpecImpl;

use crate::color::{AnsiColor, AnsiMode, Color};
use crate::effects::Effects;
use crate::style::Style;
use crate::styled::{StyledStr, StyledString};

verus! {

/// A color of `colored`: one variant for each variant of `colored::Color`.
#[derive(Clone, Copy, Debug, PartialEq, Eq, Structural)]
#[allow(missing_docs)]
pub enum TextColor {
    Black,
    Red,
    Green,
    Yellow,
    Blue,
    Magenta,
    Cyan,
    White,
    BrightBlack,
    BrightRed,
    BrightGreen,
    BrightYellow,
    BrightBlue,
    BrightMagenta,
    BrightCyan,
    BrightWhite,
    TrueColor { r: u8, g: u8, b: u8 },
}

/// The styles of a text of `colored`: one flag for each style that `colored::Style` can hold.
#[derive(Clone, Copy, Debug, PartialEq, Eq, Structural)]
#[allow(missing_docs)]
pub struct TextStyles {
    pub bold: bool,
    pub dimmed: bool,
    pub underline: bool,
    pub reversed: bool,
    pub italic: bool,
    pub blink: bool,
    pub hidden: bool,
    pub strikethrough: bool,
}

/// A text with colors and styles, as `colored::ColoredString` is one.
#[derive(Clone, Debug, PartialEq)]
pub struct ColoredText {
    /// The plain text that the colors and styles are applied to.
    pub input: String,
    /// The color of the text.
    pub fgcolor: Option<TextColor>,
    /// The color of the background.
    pub bgcolor: Option<TextColor>,
    /// The styles of the text.
    pub style: TextStyles,
}

/// The constant of `colored` for an ANSI color: the bare hue for a dark color, `Bright…` for
/// a light one.
pub open spec fn ansi_constant(color: AnsiColor, mode: AnsiMode) -> TextColor {
    match (mode, color) {
        (AnsiMode::Dark, AnsiColor::Black) => TextColor::Black,
        (AnsiMode::Dark, AnsiColor::Red) => TextColor::Red,
        (AnsiMode::Dark, AnsiColor::Green) => TextColor::Green,
        (AnsiMode::Dark, AnsiColor::Yellow) => TextColor::Yellow,
        (AnsiMode::Dark, AnsiColor::Blue) => TextColor::Blue,
        (AnsiMode::Dark, AnsiColor::Magenta) => TextColor::Magenta,
        (AnsiMode::Dark, AnsiColor::Cyan) => TextColor::Cyan,
        (AnsiMode::Dark, AnsiColor::White) => TextColor::White,
        (AnsiMode::Light, AnsiColor::Black) => TextColor::BrightBlack,
        (AnsiMode::Light, AnsiColor::Red) => TextColor::BrightRed,
        (AnsiMode::Light, AnsiColor::Green) => TextColor::BrightGreen,
        (AnsiMode::Light, AnsiColor::Yellow) => TextColor::BrightYellow,
        (AnsiMode::Light, AnsiColor::Blue) => TextColor::BrightBlue,
        (AnsiMode::Light, AnsiColor::Magenta) => TextColor::BrightMagenta,
        (AnsiMode::Light, AnsiColor::Cyan) => TextColor::BrightCyan,
        (AnsiMode::Light, AnsiColor::White) => TextColor::BrightWhite,
    }
}

/// The color of `colored` for a color.
pub open spec fn text_color(color: Color) -> TextColor {
    match color {
        Color::Ansi { color, mode } => ansi_constant(color, mode),
        Color::Rgb { r, g, b } => TextColor::TrueColor { r, g, b },
    }
}

/// The color for a color of `colored`.
pub open spec fn color_of(color: TextColor) -> Color {
    match color {
        TextColor::Black => Color::Ansi { color: AnsiColor::Black, mode: AnsiMode::Dark },
        TextColor::Red => Color::Ansi { color: AnsiColor::Red, mode: AnsiMode::Dark },
        TextColor::Green => Color::Ansi { color: AnsiColor::Green, mode: AnsiMode::Dark },
        TextColor::Yellow => Color::Ansi { color: AnsiColor::Yellow, mode: AnsiMode::Dark },
        TextColor::Blue => Color::Ansi { color: AnsiColor::Blue, mode: AnsiMode::Dark },
        TextColor::Magenta => Color::Ansi { color: AnsiColor::Magenta, mode: AnsiMode::Dark },
        TextColor::Cyan => Color::Ansi { color: AnsiColor::Cyan, mode: AnsiMode::Dark },
        TextColor::White => Color::Ansi { color: AnsiColor::White, mode: AnsiMode::Dark },
        TextColor::BrightBlack => Color::Ansi {
            color: AnsiColor::Black,
            mode: AnsiMode::Light,
        },
        TextColor::BrightRed => Color::Ansi { color: AnsiColor::Red, mode: AnsiMode::Light },
        TextColor::BrightGreen => Color::Ansi {
            color: AnsiColor::Green,
            mode: AnsiMode::Light,
        },
        TextColor::BrightYellow => Color::Ansi {
            color: AnsiColor::Yellow,
            mode: AnsiMode::Light,
        },
        TextColor::BrightBlue => Color::Ansi { color: AnsiColor::Blue, mode: AnsiMode::Light },
        TextColor::BrightMagenta => Color::Ansi {
            color: AnsiColor::Magenta,
            mode: AnsiMode::Light,
        },
        TextColor::BrightCyan => Color::Ansi { color: AnsiColor::Cyan, mode: AnsiMode::Light },
        TextColor::BrightWhite => Color::Ansi {
            color: AnsiColor::White,
            mode: AnsiMode::Light,
        },
        TextColor::TrueColor { r, g, b } => Color::Rgb { r, g, b },
    }
}

/// The ANSI control code with which `colored` sets a symbolic color as the foreground.  A
/// true color has none of its own.
pub open spec fn foreground_code(color: TextColor) -> Option<int> {
    match color {
        TextColor::Black => Some(30),
        TextColor::Red => Some(31),
        TextColor::Green => Some(32),
        TextColor::Yellow => Some(33),
        TextColor::Blue => Some(34),
        TextColor::Magenta => Some(35),
        TextColor::Cyan => Some(36),
        TextColor::White => Some(37),
        TextColor::BrightBlack => Some(90),
        TextColor::BrightRed => Some(91),
        TextColor::BrightGreen => Some(92),
        TextColor::BrightYellow => Some(93),
        TextColor::BrightBlue => Some(94),
        TextColor::BrightMagenta => Some(95),
        TextColor::BrightCyan => Some(96),
        TextColor::BrightWhite => Some(97),
        TextColor::TrueColor { .. } => None,
    }
}

/// The color of `colored` for an optional color.
pub open spec fn text_color_option(color: Option<Color>) -> Option<TextColor> {
    match color {
        Some(color) => Some(text_color(color)),
        None => None,
    }
}

/// The color for an optional color of `colored`.
pub open spec fn color_of_option(color: Option<TextColor>) -> Option<Color> {
    match color {
        Some(color) => Some(color_of(color)),
        None => None,
    }
}

impl TextStyles {
    /// No style at all.
    pub open spec fn clear() -> TextStyles {
        TextStyles {
            bold: false,
            dimmed: false,
            underline: false,
            reversed: false,
            italic: false,
            blink: false,
            hidden: false,
            strikethrough: false,
        }
    }

    /// The text effects among these styles.
    pub open spec fn effects(self) -> Effects {
        Effects {
            is_bold: self.bold,
            is_italic: self.italic,
            is_underline: self.underline,
            is_strikethrough: self.strikethrough,
        }
    }

    /// These styles with the style of each effect of `effects` added.
    pub open spec fn with_effects(self, effects: Effects) -> TextStyles {
        TextStyles {
            bold: self.bold || effects.is_bold,
            italic: self.italic || effects.is_italic,
            underline: self.underline || effects.is_underline,
            strikethrough: self.strikethrough || effects.is_strikethrough,
            ..self
        }
    }

    /// Creates the styles that set nothing.
    pub fn new() -> (res: TextStyles)
        ensures
            res == TextStyles::clear(),
    {
        TextStyles {
            bold: false,
            dimmed: false,
            underline: false,
            reversed: false,
            italic: false,
            blink: false,
            hidden: false,
            strikethrough: false,
        }
    }
}

/// A text of `colored` as a mathematical value.
pub struct ColoredModel {
    /// The characters of the text.
    pub input: Seq<char>,
    /// The color of the text.
    pub fgcolor: Option<TextColor>,
    /// The color of the background.
    pub bgcolor: Option<TextColor>,
    /// The styles of the text.
    pub style: TextStyles,
}

impl View for ColoredText {
    type V = ColoredModel;

    open spec fn view(&self) -> ColoredModel {
        ColoredModel {
            input: self.input@,
            fgcolor: self.fgcolor,
            bgcolor: self.bgcolor,
            style: self.style,
        }
    }
}

/// The text of `colored` for a text with an optional style: a plain text without a style;
/// else the text with each color of the style where it is set — the foreground as the color
/// of the text, the background as the color of the background — and with the style of each
/// effect.
pub open spec fn colored_model(text: Seq<char>, style: Option<Style>) -> ColoredModel {
    match style {
        None => ColoredModel {
            input: text,
            fgcolor: None,
            bgcolor: None,
            style: TextStyles::clear(),
        },
        Some(style) => ColoredModel {
            input: text,
            fgcolor: text_color_option(style.fg),
            bgcolor: text_color_option(style.bg),
            style: TextStyles::clear().with_effects(style.effects),
        },
    }
}

/// The style that a text of `colored` stands for.
pub open spec fn style_of(text: ColoredModel) -> Style {
    Style {
        fg: color_of_option(text.fgcolor),
        bg: color_of_option(text.bgcolor),
        effects: text.style.effects(),
    }
}

/// Returns the constant of `colored` for an ANSI color.
pub fn get_ansi(color: AnsiColor, mode: AnsiMode) -> (res: TextColor)
    ensures
        res == ansi_constant(color, mode),
{
    match mode {
        AnsiMode::Dark => match color {
            AnsiColor::Black => TextColor::Black,
            AnsiColor::Red => TextColor::Red,
            AnsiColor::Green => TextColor::Green,
            AnsiColor::Yellow => TextColor::Yellow,
            AnsiColor::Blue => TextColor::Blue,
            AnsiColor::Magenta => TextColor::Magenta,
            AnsiColor::Cyan => TextColor::Cyan,
            AnsiColor::White => TextColor::White,
        },
        AnsiMode::Light => match color {
            AnsiColor::Black => TextColor::BrightBlack,
            AnsiColor::Red => TextColor::BrightRed,
            AnsiColor::Green => TextColor::BrightGreen,
            AnsiColor::Yellow => TextColor::BrightYellow,
            AnsiColor::Blue => TextColor::BrightBlue,
            AnsiColor::Magenta => TextColor::BrightMagenta,
            AnsiColor::Cyan => TextColor::BrightCyan,
            AnsiColor::White => TextColor::BrightWhite,
        },
    }
}

impl FromSpecImpl<Color> for TextColor {
    open spec fn obeys_from_spec() -> bool {
        true
    }

    open spec fn from_spec(color: Color) -> TextColor {
        text_color(color)
    }
}

impl From<Color> for TextColor {
    /// Converts a color: an ANSI color to the symbolic constant of `colored` for it, an RGB
    /// color to the same components.
    fn from(color: Color) -> (res: TextColor)
        ensures
            res == text_color(color),
    {
        match color {
            Color::Ansi { color, mode } => get_ansi(color, mode),
            Color::Rgb { r, g, b } => TextColor::TrueColor { r, g, b },
        }
    }
}

impl FromSpecImpl<TextColor> for Color {
    open spec fn obeys_from_spec() -> bool {
        true
    }

    open spec fn from_spec(color: TextColor) -> Color {
        color_of(color)
    }
}

impl From<TextColor> for Color {
    /// Converts a color of `colored`: a symbolic constant to the ANSI color that it stands
    /// for, a true color to the same components.
    fn from(color: TextColor) -> (res: Color)
        ensures
            res == color_of(color),
    {
        match color {
            TextColor::Black => Color::Ansi { color: AnsiColor::Black, mode: AnsiMode::Dark },
            TextColor::Red => Color::Ansi { color: AnsiColor::Red, mode: AnsiMode::Dark },
            TextColor::Green => Color::Ansi { color: AnsiColor::Green, mode: AnsiMode::Dark },
            TextColor::Yellow => Color::Ansi { color: AnsiColor::Yellow, mode: AnsiMode::Dark },
            TextColor::Blue => Color::Ansi { color: AnsiColor::Blue, mode: AnsiMode::Dark },
            TextColor::Magenta => Color::Ansi { color: AnsiColor::Magenta, mode: AnsiMode::Dark },
            TextColor::Cyan => Color::Ansi { color: AnsiColor::Cyan, mode: AnsiMode::Dark },
            TextColor::White => Color::Ansi { color: AnsiColor::White, mode: AnsiMode::Dark },
            TextColor::BrightBlack => Color::Ansi {
                color: AnsiColor::Black,
                mode: AnsiMode::Light,
            },
            TextColor::BrightRed => Color::Ansi { color: AnsiColor::Red, mode: AnsiMode::Light },
            TextColor::BrightGreen => Color::Ansi {
                color: AnsiColor::Green,
                mode: AnsiMode::Light,
            },
            TextColor::BrightYellow => Color::Ansi {
                color: AnsiColor::Yellow,
                mode: AnsiMode::Light,
            },
            TextColor::BrightBlue => Color::Ansi {
                color: AnsiColor::Blue,
                mode: AnsiMode::Light,
            },
            TextColor::BrightMagenta => Color::Ansi {
                color: AnsiColor::Magenta,
                mode: AnsiMode::Light,
            },
            TextColor::BrightCyan => Color::Ansi {
                color: AnsiColor::Cyan,
                mode: AnsiMode::Light,
            },
            TextColor::BrightWhite => Color::Ansi {
                color: AnsiColor::White,
                mode: AnsiMode::Light,
            },
            TextColor::TrueColor { r, g, b } => Color::Rgb { r, g, b },
        }
    }
}

impl FromSpecImpl<TextStyles> for Effects {
    open spec fn obeys_from_spec() -> bool {
        true
    }

    open spec fn from_spec(style: TextStyles) -> Effects {
        style.effects()
    }
}

impl From<TextStyles> for Effects {
    /// The text effects among the styles of `colored`; the other styles are dropped.
    fn from(style: TextStyles) -> (res: Effects)
        ensures
            res == style.effects(),
    {
        Effects {
            is_bold: style.bold,
            is_italic: style.italic,
            is_underline: style.underline,
            is_strikethrough: style.strikethrough,
        }
    }
}

/// Adds the style of each effect of `effects` to a text of `colored`.  The text, its colors
/// and its other styles stay as they are.
pub fn apply(effects: &Effects, string: ColoredText) -> (res: ColoredText)
    ensures
        res.input == string.input,
        res.fgcolor == string.fgcolor,
        res.bgcolor == string.bgcolor,
        res.style == string.style.with_effects(*effects),
{
    let mut string = string;
    if effects.is_bold {
        string.style.bold = true;
    }
    if effects.is_italic {
        string.style.italic = true;
    }
    if effects.is_underline {
        string.style.underline = true;
    }
    if effects.is_strikethrough {
        string.style.strikethrough = true;
    }
    string
}

/// Returns the text of `colored` for a text with an optional style.
fn styled(input: String, style: Option<Style>) -> (res: ColoredText)
    ensures
        res@ == colored_model(input@, style),
{
    let mut s = ColoredText { input, fgcolor: None, bgcolor: None, style: TextStyles::new() };
    if let Some(style) = style {
        if let Some(fg) = style.fg {
            s.fgcolor = Some(TextColor::from(fg));
        }
        if let Some(bg) = style.bg {
            s.bgcolor = Some(TextColor::from(bg));
        }
        s = apply(&style.effects, s);
    }
    s
}

impl FromSpecImpl<StyledString> for ColoredText {
    open spec fn obeys_from_spec() -> bool {
        false
    }

    open spec fn from_spec(s: StyledString) -> ColoredText {
        arbitrary()
    }
}

impl From<StyledString> for ColoredText {
    /// Converts a styled string to a text of `colored` with the same text, with each color
    /// of the style where it is set and with the style of each effect.
    fn from(s: StyledString) -> (res: ColoredText)
        ensures
            res@ == colored_model(s.s@, s.style),
    {
        styled(s.s, s.style)
    }
}

impl<'a> FromSpecImpl<StyledStr<'a>> for ColoredText {
    open spec fn obeys_from_spec() -> bool {
        false
    }

    open spec fn from_spec(s: StyledStr<'a>) -> ColoredText {
        arbitrary()
    }
}

impl<'a> From<StyledStr<'a>> for ColoredText {
    /// Converts a styled string to a text of `colored` with the same text, with each color
    /// of the style where it is set and with the style of each effect.
    fn from(s: StyledStr<'a>) -> (res: ColoredText)
        ensures
            res@ == colored_model(s.s@, s.style),
    {
        styled(s.s.to_owned(), s.style)
    }
}

impl FromSpecImpl<ColoredText> for StyledString {
    open spec fn obeys_from_spec() -> bool {
        true
    }

    open spec fn from_spec(text: ColoredText) -> StyledString {
        StyledString { s: text.input, style: Some(style_of(text@)) }
    }
}

impl From<ColoredText> for StyledString {
    /// Converts a text of `colored` to a styled string with the same text.  The result always
    /// has a style: it holds the colors of the text and the text effects among its styles.
    fn from(text: ColoredText) -> (res: StyledString)
        ensures
            res == (StyledString { s: text.input, style: Some(style_of(text@)) }),
    {
        let fg = match text.fgcolor {
            Some(color) => Some(Color::from(color)),
            None => None,
        };
        let bg = match text.bgcolor {
            Some(color) => Some(Color::from(color)),
            None => None,
        };
        let effects = Effects::from(text.style);
        StyledString { s: text.input, style: Some(Style { fg, bg, effects }) }
    }
}

/// A color that is converted to `colored` and back is the same color; in particular, an RGB
/// color keeps its components.  A color of `colored` that is converted from `colored` and
/// back is the same color, too.
pub proof fn lemma_color_round_trip(color: Color, other: TextColor)
    ensures
        color_of(text_color(color)) == color,
        text_color(color_of(other)) == other,
        color matches Color::Rgb { r, g, b } ==> text_color(color) == (TextColor::TrueColor {
            r,
            g,
            b,
        }),
{
}

/// An ANSI color is sent to the constant that `colored` writes with the control code of this
/// color: 30 and the number of the base color for a dark color, 90 and that number for a
/// light one.
pub proof fn lemma_ansi_constant_code(color: AnsiColor, mode: AnsiMode)
    ensures
        foreground_code(ansi_constant(color, mode)) == Some(
            color.index() + if mode == AnsiMode::Light {
                90int
            } else {
                30int
            },
        ),
{
}

/// A set of text effects that is converted to styles of `colored` and back is the same set.
pub proof fn lemma_effects_round_trip(effects: Effects)
    ensures
        TextStyles::clear().with_effects(effects).effects() == effects,
{
}

/// A styled text that is converted to `colored` and back has the same text and the same
/// style, where a text without a style comes back with the style that sets nothing.
pub proof fn lemma_string_round_trip(text: Seq<char>, style: Option<Style>)
    ensures
        colored_model(text, style).input == text,
        style_of(colored_model(text, style)) == match style {
            Some(style) => style,
            None => Style::plain(),
        },
{
}

} // verus!
