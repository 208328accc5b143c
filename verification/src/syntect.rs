//! Conversion from the style types of the `syntect` crate.
//!
//! The types of this module hold as plain values what `syntect::highlighting::Color`,
//! `FontStyle` and `Style` hold.  A style of `syntect` always has both colors, as RGB colors
//! with an alpha component, and it knows the bold, underline and italic effects.  The
//! conversion drops the alpha component; all the rest is kept.

use vstd::prelude::*;
use vstd::std_specs::convert::FromSpecImpl;

use crate::color::Color;
use crate::effects::Effects;
use crate::style::Style;
use crate::styled::StyledStr;

verus! {

/// An RGBA color, as `syntect::highlighting::Color` is one.
#[derive(Clone, Copy, Debug, PartialEq, Eq, Structural)]
pub struct HighlightColor {
    /// The red component.
    pub r: u8,
    /// The green component.
    pub g: u8,
    /// The blue component.
    pub b: u8,
    /// The alpha component.
    pub a: u8,
}

/// A set of font styles, as `syntect::highlighting::FontStyle` is one: a set of bit flags.
#[derive(Clone, Copy, Debug, PartialEq, Eq, Structural)]
pub struct FontStyle {
    /// The flags of the set: [`FontStyle::BOLD`], [`FontStyle::UNDERLINE`] and
    /// [`FontStyle::ITALIC`], combined with `|`.
    pub bits: u8,
}

/// A style of `syntect`: two colors and a set of font styles.
#[derive(Clone, Copy, Debug, PartialEq, Eq, Structural)]
pub struct HighlightStyle {
    /// The foreground color.
    pub foreground: HighlightColor,
    /// The background color.
    pub background: HighlightColor,
    /// The font styles.
    pub font_style: FontStyle,
}

impl FontStyle {
    /// The flag of the bold font style.
    pub const BOLD: u8 = 1;

    /// The flag of the underline font style.
    pub const UNDERLINE: u8 = 2;

    /// The flag of the italic font style.
    pub const ITALIC: u8 = 4;

    /// Whether all the flags of `flag` are set in this set.
    pub open spec fn has(self, flag: u8) -> bool {
        self.bits & flag == flag
    }

    /// Returns whether all the flags of `flag` are set in this set.
    pub fn contains(&self, flag: u8) -> (res: bool)
        ensures
            res == self.has(flag),
    {
        self.bits & flag == flag
    }
}

/// The color for a color of `syntect`: the RGB color with its red, green and blue
/// components.
pub open spec fn color_of(color: HighlightColor) -> Color {
    Color::Rgb { r: color.r, g: color.g, b: color.b }
}

/// The text effects for a set of font styles of `syntect`.  There is no strikethrough among
/// the font styles.
pub open spec fn effects_of(font_style: FontStyle) -> Effects {
    Effects {
        is_bold: font_style.has(FontStyle::BOLD),
        is_italic: font_style.has(FontStyle::ITALIC),
        is_underline: font_style.has(FontStyle::UNDERLINE),
        is_strikethrough: false,
    }
}

/// The style for a style of `syntect`: both colors are set.
pub open spec fn style_of(style: HighlightStyle) -> Style {
    Style {
        fg: Some(color_of(style.foreground)),
        bg: Some(color_of(style.background)),
        effects: effects_of(style.font_style),
    }
}

impl FromSpecImpl<HighlightColor> for Color {
    open spec fn obeys_from_spec() -> bool {
        true
    }

    open spec fn from_spec(color: HighlightColor) -> Color {
        color_of(color)
    }
}

impl From<HighlightColor> for Color {
    /// Converts a color of `syntect` to the RGB color with the same red, green and blue
    /// components.
    fn from(color: HighlightColor) -> (res: Color)
        ensures
            res == color_of(color),
    {
        Color::Rgb { r: color.r, g: color.g, b: color.b }
    }
}

impl FromSpecImpl<FontStyle> for Effects {
    open spec fn obeys_from_spec() -> bool {
        true
    }

    open spec fn from_spec(font_style: FontStyle) -> Effects {
        effects_of(font_style)
    }
}

impl From<FontStyle> for Effects {
    /// Converts a set of font styles of `syntect` to the set of the text effects of the same
    /// names.
    fn from(font_style: FontStyle) -> (res: Effects)
        ensures
            res == effects_of(font_style),
    {
        Effects {
            is_bold: font_style.contains(FontStyle::BOLD),
            is_italic: font_style.contains(FontStyle::ITALIC),
            is_underline: font_style.contains(FontStyle::UNDERLINE),
            is_strikethrough: false,
        }
    }
}

impl FromSpecImpl<HighlightStyle> for Style {
    open spec fn obeys_from_spec() -> bool {
        true
    }

    open spec fn from_spec(style: HighlightStyle) -> Style {
        style_of(style)
    }
}

impl From<HighlightStyle> for Style {
    /// Converts a style of `syntect`: both colors and the font styles.
    fn from(style: HighlightStyle) -> (res: Style)
        ensures
            res == style_of(style),
    {
        Style {
            fg: Some(Color::from(style.foreground)),
            bg: Some(Color::from(style.background)),
            effects: Effects::from(style.font_style),
        }
    }
}

impl<'a, 'b> FromSpecImpl<&'b (HighlightStyle, &'a str)> for StyledStr<'a> {
    open spec fn obeys_from_spec() -> bool {
        true
    }

    open spec fn from_spec(range: &'b (HighlightStyle, &'a str)) -> StyledStr<'a> {
        StyledStr { s: range.1, style: Some(style_of(range.0)) }
    }
}

impl<'a, 'b> From<&'b (HighlightStyle, &'a str)> for StyledStr<'a> {
    /// Converts a highlighted range: the style is converted, the text is the same.
    fn from(range: &'b (HighlightStyle, &'a str)) -> (res: StyledStr<'a>)
        ensures
            res == (StyledStr { s: range.1, style: Some(style_of(range.0)) }),
    {
        StyledStr { s: range.1, style: Some(Style::from(range.0)) }
    }
}

impl<'a> FromSpecImpl<(HighlightStyle, &'a str)> for StyledStr<'a> {
    open spec fn obeys_from_spec() -> bool {
        true
    }

    open spec fn from_spec(range: (HighlightStyle, &'a str)) -> StyledStr<'a> {
        StyledStr { s: range.1, style: Some(style_of(range.0)) }
    }
}

impl<'a> From<(HighlightStyle, &'a str)> for StyledStr<'a> {
    /// Converts a highlighted range: the style is converted, the text is the same.
    fn from(range: (HighlightStyle, &'a str)) -> (res: StyledStr<'a>)
        ensures
            res == (StyledStr { s: range.1, style: Some(style_of(range.0)) }),
    {
        StyledStr { s: range.1, style: Some(Style::from(range.0)) }
    }
}

/// The three flags are independent: a set of font styles is converted to the effects whose
/// flags it holds, whatever other bits are set.
pub proof fn lemma_effects_of_flags(bold: bool, underline: bool, italic: bool, rest: u8)
    requires
        rest & 7 == 0,
    ensures
        ({
            let bits = (if bold { 1u8 } else { 0u8 }) | (if underline { 2u8 } else { 0u8 }) | (
            if italic { 4u8 } else { 0u8 }) | rest;
            effects_of(FontStyle { bits }) == (Effects {
                is_bold: bold,
                is_italic: italic,
                is_underline: underline,
                is_strikethrough: false,
            })
        }),
{
    let b1: u8 = if bold { 1u8 } else { 0u8 };
    let b2: u8 = if underline { 2u8 } else { 0u8 };
    let b4: u8 = if italic { 4u8 } else { 0u8 };
    let bits = b1 | b2 | b4 | rest;
    assert(((b1 | b2 | b4 | rest) & 1 == 1) == (b1 == 1)) by (bit_vector)
        requires
            rest & 7 == 0,
            b1 == 0 || b1 == 1,
            b2 == 0 || b2 == 2,
            b4 == 0 || b4 == 4,
    ;
    assert(((b1 | b2 | b4 | rest) & 2 == 2) == (b2 == 2)) by (bit_vector)
        requires
            rest & 7 == 0,
            b1 == 0 || b1 == 1,
            b2 == 0 || b2 == 2,
            b4 == 0 || b4 == 4,
    ;
    assert(((b1 | b2 | b4 | rest) & 4 == 4) == (b4 == 4)) by (bit_vector)
        requires
            rest & 7 == 0,
            b1 == 0 || b1 == 1,
            b2 == 0 || b2 == 2,
            b4 == 0 || b4 == 4,
    ;
}

/// The red, green and blue components of a color of `syntect` are kept as they are.
pub proof fn lemma_color_of_keeps_rgb(color: HighlightColor)
    ensures
        color_of(color).rgb() == (color.r, color.g, color.b),
{
}

} // verus!
