//! Conversion to the text types of the `bevy` game engine.
//!
//! `bevy` has no symbolic ANSI colors, so an ANSI color is converted to the RGB components
//! that the palette of [`ansi_to_rgb`](crate::color::ansi_to_rgb) gives for it.  Effects are
//! shown by fonts: [`TextStyleParams`] names a bold and an italic font beside the plain one.
//! Underline and strikethrough cannot be shown.
//!
//! The types of this module hold as plain values what decides how a text is shown.  A font
//! is known by a number that stands for its handle, and a color by its 8-bit components.
//! The size of the text, and its color where the style sets none, are those of the caller's
//! own text style: the values of this module do not hold them.

use vstd::prelude::*;
use vstd::std_specs::convert::FromSpecImpl;

use crate::color::{ansi_to_rgb, palette, AnsiColor, AnsiMode, Color};
use crate::style::Style;
use crate::styled::{StyledStr, StyledString};

verus! {

/// A font, known by the number that stands for its handle.  The number 0 stands for the
/// default handle.
#[derive(Clone, Copy, Debug, PartialEq, Eq, Structural)]
pub struct Font {
    /// The number of the handle.
    pub id: u64,
}

/// A color by its red, green and blue components, as `bevy` makes one from 8-bit values.
#[derive(Clone, Copy, Debug, PartialEq, Eq, Structural)]
pub struct Rgb {
    /// The red component.
    pub r: u8,
    /// The green component.
    pub g: u8,
    /// The blue component.
    pub b: u8,
}

/// How a text is shown: its font and its color.
#[derive(Clone, Copy, Debug, PartialEq, Eq, Structural)]
pub struct TextStyle {
    /// The font of the text.
    pub font: Font,
    /// The color of the text; `None` for the color of the caller's own text style.
    pub color: Option<Rgb>,
}

/// Text style parameters that include bold and italic fonts if available.
#[derive(Clone, Copy, Debug, PartialEq, Eq, Structural)]
pub struct TextStyleParams {
    /// The typical text style.  Its font is the plain font.
    pub text_style: TextStyle,
    /// A bold font if available.
    pub bold: Option<Font>,
    /// An italic font if available.
    pub italic: Option<Font>,
}

/// A text to be shown, as a `TextBundle` with a single section is one.
#[derive(Clone, Debug, PartialEq)]
pub struct TextBundle {
    /// The text.
    pub text: String,
    /// How the text is shown.
    pub style: TextStyle,
    /// The color behind the text, if any.
    pub background: Option<Rgb>,
}

/// The color with the given components.
pub open spec fn rgb_u8(components: (u8, u8, u8)) -> Rgb {
    Rgb { r: components.0, g: components.1, b: components.2 }
}

/// The color of `bevy` for a color: its RGB components.
pub open spec fn bevy_color(color: Color) -> Rgb {
    rgb_u8(color.rgb())
}

/// The color of `bevy` for an optional color.
pub open spec fn bevy_color_option(color: Option<Color>) -> Option<Rgb> {
    match color {
        Some(color) => Some(bevy_color(color)),
        None => None,
    }
}

/// The font for a style: the bold font for a bold style, the italic font for an italic style
/// that is not bold, each only if it is available; in every other case the plain font.
pub open spec fn font_for(params: TextStyleParams, style: Style) -> Font {
    if style.effects.is_bold && params.bold is Some {
        params.bold.unwrap()
    } else if !style.effects.is_bold && style.effects.is_italic && params.italic is Some {
        params.italic.unwrap()
    } else {
        params.text_style.font
    }
}

/// How a text with an optional style is shown.  A text with a style has the font for its
/// style, and the foreground color of its style, or, where the style sets none, the color
/// of the typical text style.  A text without a style is shown as the typical text style
/// says.
pub open spec fn text_style_for(params: TextStyleParams, style: Option<Style>) -> TextStyle {
    match style {
        Some(style) => TextStyle {
            font: font_for(params, style),
            color: match style.fg {
                Some(fg) => Some(bevy_color(fg)),
                None => params.text_style.color,
            },
        },
        None => params.text_style,
    }
}

/// The color behind a text with an optional style: its background color, if it has one.
pub open spec fn background_for(style: Option<Style>) -> Option<Rgb> {
    match style {
        Some(style) => bevy_color_option(style.bg),
        None => None,
    }
}

impl TextStyle {
    /// The text style of the default font, which sets no color.
    pub open spec fn plain() -> TextStyle {
        TextStyle { font: Font { id: 0 }, color: None }
    }
}

impl Default for TextStyle {
    /// The text style of the default font, which sets no color.
    fn default() -> (res: TextStyle)
        ensures
            res == TextStyle::plain(),
    {
        TextStyle { font: Font { id: 0 }, color: None }
    }
}

impl TextStyleParams {
    /// The parameters with the given typical text style and without other fonts.
    pub open spec fn only(text_style: TextStyle) -> TextStyleParams {
        TextStyleParams { text_style, bold: None, italic: None }
    }
}

impl Default for TextStyleParams {
    /// The parameters with the default text style and without other fonts.
    fn default() -> (res: TextStyleParams)
        ensures
            res == TextStyleParams::only(TextStyle::plain()),
    {
        TextStyleParams { text_style: TextStyle::default(), bold: None, italic: None }
    }
}

impl FromSpecImpl<TextStyle> for TextStyleParams {
    open spec fn obeys_from_spec() -> bool {
        true
    }

    open spec fn from_spec(text_style: TextStyle) -> TextStyleParams {
        TextStyleParams::only(text_style)
    }
}

impl From<TextStyle> for TextStyleParams {
    /// The parameters with the given typical text style and without other fonts.
    fn from(text_style: TextStyle) -> (res: TextStyleParams)
        ensures
            res == TextStyleParams::only(text_style),
    {
        TextStyleParams { text_style, bold: None, italic: None }
    }
}

/// Returns the color of `bevy` that approximates an ANSI color.
pub fn get_rgb_color(color: AnsiColor, mode: AnsiMode) -> (res: Rgb)
    ensures
        res == rgb_u8(palette(color, mode)),
{
    let (r, g, b) = ansi_to_rgb(color, mode);
    Rgb { r, g, b }
}

impl FromSpecImpl<Color> for Rgb {
    open spec fn obeys_from_spec() -> bool {
        true
    }

    open spec fn from_spec(color: Color) -> Rgb {
        bevy_color(color)
    }
}

impl From<Color> for Rgb {
    /// Converts a color: an ANSI color to the RGB components of the palette, an RGB color to
    /// the same components.
    fn from(c: Color) -> (res: Rgb)
        ensures
            res == bevy_color(c),
    {
        match c {
            Color::Ansi { color, mode } => get_rgb_color(color, mode),
            Color::Rgb { r, g, b } => Rgb { r, g, b },
        }
    }
}

/// Returns the typical text style with the font for `style`.
pub fn use_params(params: &TextStyleParams, style: &Style) -> (res: TextStyle)
    ensures
        res == (TextStyle { font: font_for(*params, *style), ..params.text_style }),
{
    let font: Option<Font> = if style.effects.is_bold {
        params.bold
    } else if style.effects.is_italic {
        params.italic
    } else {
        None
    };
    TextStyle {
        font: match font {
            Some(font) => font,
            None => params.text_style.font,
        },
        color: params.text_style.color,
    }
}

/// Returns how a text with the optional style `style` is shown.
fn choose_text_style(style: Option<Style>, params: &TextStyleParams) -> (res: TextStyle)
    ensures
        res == text_style_for(*params, style),
{
    match style {
        Some(style) => {
            let text_style = use_params(params, &style);
            match style.fg {
                Some(fg) => TextStyle { color: Some(Rgb::from(fg)), ..text_style },
                None => text_style,
            }
        },
        None => params.text_style,
    }
}

/// Returns the color behind a text with the optional style `style`.
fn choose_background(style: Option<Style>) -> (res: Option<Rgb>)
    ensures
        res == background_for(style),
{
    match style {
        Some(style) => match style.bg {
            Some(bg) => Some(Rgb::from(bg)),
            None => None,
        },
        None => None,
    }
}

/// Converts a styled string to a text to be shown: the same text, shown as its style and the
/// parameters say, before its background color if it has one.
pub fn with_style(s: StyledString, text_style_params: &TextStyleParams) -> (res: TextBundle)
    ensures
        res.text == s.s,
        res.style == text_style_for(*text_style_params, s.style),
        res.background == background_for(s.style),
{
    let style = choose_text_style(s.style, text_style_params);
    let background = choose_background(s.style);
    TextBundle { text: s.s, style, background }
}

/// Converts a borrowed styled string to a text to be shown, as [`with_style`] does.
pub fn with_style_string(s: StyledStr<'_>, text_style_params: &TextStyleParams) -> (res:
    TextBundle)
    ensures
        res.text@ == s.s@,
        res.style == text_style_for(*text_style_params, s.style),
        res.background == background_for(s.style),
{
    let s = StyledString::from(s);
    with_style(s, text_style_params)
}

impl FromSpecImpl<StyledString> for TextBundle {
    open spec fn obeys_from_spec() -> bool {
        true
    }

    open spec fn from_spec(s: StyledString) -> TextBundle {
        TextBundle {
            text: s.s,
            style: text_style_for(TextStyleParams::only(TextStyle::plain()), s.style),
            background: background_for(s.style),
        }
    }
}

impl From<StyledString> for TextBundle {
    /// Converts a styled string with the default parameters.
    fn from(s: StyledString) -> (res: TextBundle)
        ensures
            res == (TextBundle {
                text: s.s,
                style: text_style_for(TextStyleParams::only(TextStyle::plain()), s.style),
                background: background_for(s.style),
            }),
    {
        with_style(s, &TextStyleParams::from(TextStyle::default()))
    }
}

impl<'a> FromSpecImpl<StyledStr<'a>> for TextBundle {
    open spec fn obeys_from_spec() -> bool {
        false
    }

    open spec fn from_spec(s: StyledStr<'a>) -> TextBundle {
        arbitrary()
    }
}

impl<'a> From<StyledStr<'a>> for TextBundle {
    /// Converts a borrowed styled string with the default parameters.
    fn from(s: StyledStr<'a>) -> (res: TextBundle)
        ensures
            res.text@ == s.s@,
            res.style == text_style_for(TextStyleParams::only(TextStyle::plain()), s.style),
            res.background == background_for(s.style),
    {
        with_style_string(s, &TextStyleParams::from(TextStyle::default()))
    }
}

/// The effects of a style choose the font whether or not the style sets a color, and the
/// colors of a style choose the colors whatever its effects are.  In particular, a bold text
/// without a foreground color is shown in the bold font, if there is one, and in the color
/// of the typical text style.
pub proof fn lemma_text_style_for(params: TextStyleParams, style: Style, other: Style)
    ensures
        text_style_for(params, Some(style)).font == font_for(params, style),
        style.effects == other.effects ==> text_style_for(params, Some(style)).font
            == text_style_for(params, Some(other)).font,
        style.fg == other.fg ==> text_style_for(params, Some(style)).color == text_style_for(
            params,
            Some(other),
        ).color,
        style.fg is None ==> text_style_for(params, Some(style)).color
            == params.text_style.color,
        style.effects.is_bold && params.bold is Some ==> text_style_for(
            params,
            Some(style),
        ).font == params.bold.unwrap(),
        text_style_for(params, Some(Style::plain())) == params.text_style,
{
}

/// The font is always one of the three fonts of the parameters, and it is the plain font
/// whenever the style is neither bold nor italic or the parameters name no other font.
pub proof fn lemma_font_for(params: TextStyleParams, style: Style)
    ensures
        font_for(params, style) == params.text_style.font || Some(font_for(params, style))
            == params.bold || Some(font_for(params, style)) == params.italic,
        !style.effects.is_bold && !style.effects.is_italic ==> font_for(params, style)
            == params.text_style.font,
        params.bold is None && params.italic is None ==> font_for(params, style)
            == params.text_style.font,
{
}

/// The colors of a text are the RGB components of the colors of its style: their own for an
/// RGB color, those of the palette for an ANSI color.
pub proof fn lemma_bevy_color(color: Color)
    ensures
        color matches Color::Rgb { r, g, b } ==> bevy_color(color) == (Rgb { r, g, b }),
        color matches Color::Ansi { color: base, mode } ==> bevy_color(color) == rgb_u8(
            palette(base, mode),
        ),
{
}

} // verus!
