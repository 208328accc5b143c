//! Conversion to the style types of the `genpdf` crate.
//!
//! `genpdf` has no symbolic ANSI colors, so an ANSI color is converted to the RGB components
//! that the palette of [`ansi_to_rgb`](crate::color::ansi_to_rgb) gives for it.  Of a style,
//! `genpdf` can express the foreground color and the bold and italic effects; a background
//! color and the other effects are dropped.
//!
//! The types of this module hold as plain values what `genpdf::style::Color`, `Style`,
//! `StyledStr` and `StyledString` hold.

use vstd::prelude::*;
use vstd::std_specs::convert::FromSpecImpl;

use crate::color::{ansi_to_rgb, palette, AnsiColor, AnsiMode, Color};
use crate::style::Style;
use crate::styled::{StyledStr, StyledString};

verus! {

/// A color of `genpdf`: one variant for each variant of `genpdf::style::Color`.
#[derive(Clone, Copy, Debug, PartialEq, Eq, Structural)]
pub enum PdfColor {
    /// An RGB color with red, green and blue components.
    Rgb(u8, u8, u8),
    /// A CMYK color with cyan, magenta, yellow and key components.
    Cmyk(u8, u8, u8, u8),
    /// A greyscale color.
    Greyscale(u8),
}

/// A style of `genpdf`: the settings of `genpdf::style::Style` that this crate makes.  The
/// font family, the font size and the line spacing are never set.
#[derive(Clone, Copy, Debug, PartialEq, Eq, Structural)]
pub struct PdfStyle {
    /// The color of the text.
    pub color: Option<PdfColor>,
    /// Whether the text is bold.
    pub is_bold: bool,
    /// Whether the text is italic.
    pub is_italic: bool,
}

/// A borrowed text with a style, as `genpdf::style::StyledStr` is one.
#[derive(Clone, Copy, Debug, PartialEq)]
pub struct PdfStr<'s> {
    /// The text.
    pub s: &'s str,
    /// The style of the text.
    pub style: PdfStyle,
}

/// An owned text with a style, as `genpdf::style::StyledString` is one.
#[derive(Clone, Debug, PartialEq)]
pub struct PdfString {
    /// The text.
    pub s: String,
    /// The style of the text.
    pub style: PdfStyle,
}

/// The RGB color of `genpdf` with the given components.
pub open spec fn rgb_color(components: (u8, u8, u8)) -> PdfColor {
    PdfColor::Rgb(components.0, components.1, components.2)
}

/// The color of `genpdf` for a color: its RGB components.
pub open spec fn pdf_color(color: Color) -> PdfColor {
    rgb_color(color.rgb())
}

/// The style of `genpdf` for a style: the foreground color and the bold and italic effects.
pub open spec fn pdf_style(style: Style) -> PdfStyle {
    PdfStyle {
        color: match style.fg {
            Some(color) => Some(pdf_color(color)),
            None => None,
        },
        is_bold: style.effects.is_bold,
        is_italic: style.effects.is_italic,
    }
}

/// The style of `genpdf` for the optional style of a fragment: without a style, the default
/// style of `genpdf`, which sets nothing.
pub open spec fn pdf_style_option(style: Option<Style>) -> PdfStyle {
    match style {
        Some(style) => pdf_style(style),
        None => PdfStyle::unset(),
    }
}

impl PdfStyle {
    /// The style that sets nothing.
    pub open spec fn unset() -> PdfStyle {
        PdfStyle { color: None, is_bold: false, is_italic: false }
    }

    /// Creates the style that sets nothing.
    pub fn new() -> (res: PdfStyle)
        ensures
            res == PdfStyle::unset(),
    {
        PdfStyle { color: None, is_bold: false, is_italic: false }
    }

    /// Sets the color of the text.
    pub fn set_color(&mut self, color: PdfColor)
        ensures
            *final(self) == (PdfStyle { color: Some(color), ..*old(self) }),
    {
        self.color = Some(color);
    }

    /// Makes the text bold.
    pub fn set_bold(&mut self)
        ensures
            *final(self) == (PdfStyle { is_bold: true, ..*old(self) }),
    {
        self.is_bold = true;
    }

    /// Makes the text italic.
    pub fn set_italic(&mut self)
        ensures
            *final(self) == (PdfStyle { is_italic: true, ..*old(self) }),
    {
        self.is_italic = true;
    }
}

impl Default for PdfStyle {
    /// The style that sets nothing.
    fn default() -> (res: PdfStyle)
        ensures
            res == PdfStyle::unset(),
    {
        PdfStyle::new()
    }
}

/// Returns the RGB color of `genpdf` that approximates an ANSI color.
pub fn get_rgb_color(color: AnsiColor, mode: AnsiMode) -> (res: PdfColor)
    ensures
        res == rgb_color(palette(color, mode)),
{
    let (r, g, b) = ansi_to_rgb(color, mode);
    PdfColor::Rgb(r, g, b)
}

impl FromSpecImpl<Color> for PdfColor {
    open spec fn obeys_from_spec() -> bool {
        true
    }

    open spec fn from_spec(color: Color) -> PdfColor {
        pdf_color(color)
    }
}

impl From<Color> for PdfColor {
    /// Converts a color: an ANSI color to the RGB components of the palette, an RGB color to
    /// the same components.
    fn from(color: Color) -> (res: PdfColor)
        ensures
            res == pdf_color(color),
    {
        match color {
            Color::Ansi { color, mode } => get_rgb_color(color, mode),
            Color::Rgb { r, g, b } => PdfColor::Rgb(r, g, b),
        }
    }
}

impl FromSpecImpl<Style> for PdfStyle {
    open spec fn obeys_from_spec() -> bool {
        true
    }

    open spec fn from_spec(style: Style) -> PdfStyle {
        pdf_style(style)
    }
}

impl From<Style> for PdfStyle {
    /// Converts a style: the foreground color where it is set, and the bold and italic
    /// effects.
    fn from(s: Style) -> (res: PdfStyle)
        ensures
            res == pdf_style(s),
    {
        let mut style = PdfStyle::new();
        if let Some(color) = s.fg {
            style.set_color(PdfColor::from(color));
        }
        if s.effects.is_bold {
            style.set_bold();
        }
        if s.effects.is_italic {
            style.set_italic();
        }
        style
    }
}

/// Returns the style of `genpdf` for the optional style of a fragment.
pub fn convert_style(style: Option<Style>) -> (res: PdfStyle)
    ensures
        res == pdf_style_option(style),
{
    match style {
        Some(style) => PdfStyle::from(style),
        None => PdfStyle::default(),
    }
}

/// A text of `genpdf` as a mathematical value.
pub struct PdfText {
    /// The characters of the text.
    pub text: Seq<char>,
    /// The style of the text.
    pub style: PdfStyle,
}

/// The text of `genpdf` for a text with an optional style: the same text, with the style
/// converted.
pub open spec fn pdf_text(text: Seq<char>, style: Option<Style>) -> PdfText {
    PdfText { text, style: pdf_style_option(style) }
}

impl<'s> View for PdfStr<'s> {
    type V = PdfText;

    open spec fn view(&self) -> PdfText {
        PdfText { text: self.s@, style: self.style }
    }
}

impl View for PdfString {
    type V = PdfText;

    open spec fn view(&self) -> PdfText {
        PdfText { text: self.s@, style: self.style }
    }
}

impl<'a, 's> FromSpecImpl<&'a StyledStr<'s>> for PdfStr<'s> {
    open spec fn obeys_from_spec() -> bool {
        true
    }

    open spec fn from_spec(s: &'a StyledStr<'s>) -> PdfStr<'s> {
        PdfStr { s: s.s, style: pdf_style_option(s.style) }
    }
}

impl<'a, 's> From<&'a StyledStr<'s>> for PdfStr<'s> {
    /// Converts a styled string: the style is converted, the text is the same.
    fn from(s: &'a StyledStr<'s>) -> (res: PdfStr<'s>)
        ensures
            res == (PdfStr { s: s.s, style: pdf_style_option(s.style) }),
    {
        PdfStr { s: s.s, style: convert_style(s.style) }
    }
}

impl<'s> FromSpecImpl<StyledStr<'s>> for PdfStr<'s> {
    open spec fn obeys_from_spec() -> bool {
        true
    }

    open spec fn from_spec(s: StyledStr<'s>) -> PdfStr<'s> {
        PdfStr { s: s.s, style: pdf_style_option(s.style) }
    }
}

impl<'s> From<StyledStr<'s>> for PdfStr<'s> {
    /// Converts a styled string: the style is converted, the text is the same.
    fn from(s: StyledStr<'s>) -> (res: PdfStr<'s>)
        ensures
            res == (PdfStr { s: s.s, style: pdf_style_option(s.style) }),
    {
        PdfStr { s: s.s, style: convert_style(s.style) }
    }
}

impl<'s> FromSpecImpl<&'s StyledString> for PdfStr<'s> {
    open spec fn obeys_from_spec() -> bool {
        false
    }

    open spec fn from_spec(s: &'s StyledString) -> PdfStr<'s> {
        arbitrary()
    }
}

impl<'s> From<&'s StyledString> for PdfStr<'s> {
    /// Converts a styled string: the style is converted, the text is the same.
    fn from(s: &'s StyledString) -> (res: PdfStr<'s>)
        ensures
            res@ == pdf_text(s.s@, s.style),
    {
        PdfStr { s: s.s.as_str(), style: convert_style(s.style) }
    }
}

impl<'a, 's> FromSpecImpl<&'a StyledStr<'s>> for PdfString {
    open spec fn obeys_from_spec() -> bool {
        false
    }

    open spec fn from_spec(s: &'a StyledStr<'s>) -> PdfString {
        arbitrary()
    }
}

impl<'a, 's> From<&'a StyledStr<'s>> for PdfString {
    /// Converts a styled string: the style is converted, the text is the same.
    fn from(s: &'a StyledStr<'s>) -> (res: PdfString)
        ensures
            res@ == pdf_text(s.s@, s.style),
    {
        PdfString { s: s.s.to_owned(), style: convert_style(s.style) }
    }
}

impl<'s> FromSpecImpl<StyledStr<'s>> for PdfString {
    open spec fn obeys_from_spec() -> bool {
        false
    }

    open spec fn from_spec(s: StyledStr<'s>) -> PdfString {
        arbitrary()
    }
}

impl<'s> From<StyledStr<'s>> for PdfString {
    /// Converts a styled string: the style is converted, the text is the same.
    fn from(s: StyledStr<'s>) -> (res: PdfString)
        ensures
            res@ == pdf_text(s.s@, s.style),
    {
        PdfString { s: s.s.to_owned(), style: convert_style(s.style) }
    }
}

impl<'s> FromSpecImpl<&'s StyledString> for PdfString {
    open spec fn obeys_from_spec() -> bool {
        false
    }

    open spec fn from_spec(s: &'s StyledString) -> PdfString {
        arbitrary()
    }
}

impl<'s> From<&'s StyledString> for PdfString {
    /// Converts a styled string: the style is converted, the text is the same.
    fn from(s: &'s StyledString) -> (res: PdfString)
        ensures
            res@ == pdf_text(s.s@, s.style),
    {
        PdfString { s: s.s.clone(), style: convert_style(s.style) }
    }
}

impl FromSpecImpl<StyledString> for PdfString {
    open spec fn obeys_from_spec() -> bool {
        true
    }

    open spec fn from_spec(s: StyledString) -> PdfString {
        PdfString { s: s.s, style: pdf_style_option(s.style) }
    }
}

impl From<StyledString> for PdfString {
    /// Converts a styled string: the style is converted, the text is the same.
    fn from(s: StyledString) -> (res: PdfString)
        ensures
            res == (PdfString { s: s.s, style: pdf_style_option(s.style) }),
    {
        PdfString { s: s.s, style: convert_style(s.style) }
    }
}

/// Every color is converted to an RGB color of `genpdf`: an RGB color to its own components,
/// an ANSI color to those of the palette.
pub proof fn lemma_pdf_color_is_rgb(color: Color)
    ensures
        pdf_color(color) is Rgb,
        color matches Color::Rgb { r, g, b } ==> pdf_color(color) == PdfColor::Rgb(r, g, b),
        color matches Color::Ansi { color: base, mode } ==> pdf_color(color) == rgb_color(
            palette(base, mode),
        ),
{
}

/// What `genpdf` cannot express has no part in the conversion: two styles with the same
/// foreground color and the same bold and italic effects are converted to the same style.
pub proof fn lemma_pdf_style_depends_on(a: Style, b: Style)
    requires
        a.fg == b.fg,
        a.effects.is_bold == b.effects.is_bold,
        a.effects.is_italic == b.effects.is_italic,
    ensures
        pdf_style(a) == pdf_style(b),
{
}

} // verus!
