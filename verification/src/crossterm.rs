//! Conversion to the style types of the `crossterm` crate.
//!
//! `crossterm` has a symbolic constant for each of the sixteen ANSI colors, so ANSI colors are
//! mapped onto those and never go through RGB components.
//!
//! The types of this module hold as plain values what the types of `crossterm::style` with
//! the same names hold.  To print such a value, build the value of `crossterm` from it and
//! hand it to a `crossterm::style::PrintStyledContent` command.

use vstd::prelude::*;
use vstd::seq_lib::lemma_seq_contains_after_push;
use vstd::std_specs::convert::FromSpecImpl;

use crate::color::{AnsiColor, AnsiMode, Color};
use crate::effects::{Effect, Effects};
use crate::style::Style;
use crate::styled::{StyledStr, StyledString};

verus! {

/// A color of `crossterm`: one variant for each variant of `crossterm::style::Color`.
#[derive(Clone, Copy, Debug, PartialEq, Eq, Structural)]
pub enum TermColor {
    /// Resets the terminal color.
    Reset,
    /// Black color.
    Black,
    /// Dark grey color.
    DarkGrey,
    /// Light red color.
    Red,
    /// Dark red color.
    DarkRed,
    /// Light green color.
    Green,
    /// Dark green color.
    DarkGreen,
    /// Light yellow color.
    Yellow,
    /// Dark yellow color.
    DarkYellow,
    /// Light blue color.
    Blue,
    /// Dark blue color.
    DarkBlue,
    /// Light magenta color.
    Magenta,
    /// Dark magenta color.
    DarkMagenta,
    /// Light cyan color.
    Cyan,
    /// Dark cyan color.
    DarkCyan,
    /// White color.
    White,
    /// Grey color.
    Grey,
    /// An RGB color.
    Rgb {
        /// The red component.
        r: u8,
        /// The green component.
        g: u8,
        /// The blue component.
        b: u8,
    },
    /// A color of the 256-color palette, by its number.
    AnsiValue(u8),
}

/// A text attribute of `crossterm`: the variants of `crossterm::style::Attribute` that stand
/// for a text effect.
#[derive(Clone, Copy, Debug, PartialEq, Eq, Structural)]
pub enum Attribute {
    /// Increases the text intensity.
    Bold,
    /// Emphasises the text.
    Italic,
    /// Underlines the text.
    Underlined,
    /// Crosses the text.
    CrossedOut,
}

/// A set of text attributes, as `crossterm::style::Attributes` is one.
#[derive(Clone, Copy, Debug, PartialEq, Eq, Structural)]
pub struct Attributes {
    /// Whether `Attribute::Bold` is set.
    pub bold: bool,
    /// Whether `Attribute::Italic` is set.
    pub italic: bool,
    /// Whether `Attribute::Underlined` is set.
    pub underlined: bool,
    /// Whether `Attribute::CrossedOut` is set.
    pub crossed_out: bool,
}

/// The style that can be put on content, as `crossterm::style::ContentStyle` is one.
#[derive(Clone, Copy, Debug, PartialEq, Eq, Structural)]
pub struct ContentStyle {
    /// The foreground color.
    pub foreground_color: Option<TermColor>,
    /// The background color.
    pub background_color: Option<TermColor>,
    /// The attributes.
    pub attributes: Attributes,
}

/// A style with the borrowed text to be styled, as `crossterm::style::StyledContent<&str>`
/// is one.
#[derive(Clone, Copy, Debug, PartialEq)]
pub struct StyledContent<'a> {
    /// The style.
    pub style: ContentStyle,
    /// The text to put the style on.
    pub content: &'a str,
}

/// A style with the owned text to be styled, as `crossterm::style::StyledContent<String>`
/// is one.
#[derive(Clone, Debug, PartialEq)]
pub struct StyledContentString {
    /// The style.
    pub style: ContentStyle,
    /// The text to put the style on.
    pub content: String,
}

/// The constant of `crossterm` for an ANSI color.
///
/// `crossterm` names the dark colors `Dark…` and the light ones by the bare hue, but for
/// black and white: dark black is `Black` and light black `DarkGrey`, dark white is `Grey`
/// and light white `White`.
pub open spec fn ansi_constant(color: AnsiColor, mode: AnsiMode) -> TermColor {
    match (mode, color) {
        (AnsiMode::Dark, AnsiColor::Black) => TermColor::Black,
        (AnsiMode::Dark, AnsiColor::Red) => TermColor::DarkRed,
        (AnsiMode::Dark, AnsiColor::Green) => TermColor::DarkGreen,
        (AnsiMode::Dark, AnsiColor::Yellow) => TermColor::DarkYellow,
        (AnsiMode::Dark, AnsiColor::Blue) => TermColor::DarkBlue,
        (AnsiMode::Dark, AnsiColor::Magenta) => TermColor::DarkMagenta,
        (AnsiMode::Dark, AnsiColor::Cyan) => TermColor::DarkCyan,
        (AnsiMode::Dark, AnsiColor::White) => TermColor::Grey,
        (AnsiMode::Light, AnsiColor::Black) => TermColor::DarkGrey,
        (AnsiMode::Light, AnsiColor::Red) => TermColor::Red,
        (AnsiMode::Light, AnsiColor::Green) => TermColor::Green,
        (AnsiMode::Light, AnsiColor::Yellow) => TermColor::Yellow,
        (AnsiMode::Light, AnsiColor::Blue) => TermColor::Blue,
        (AnsiMode::Light, AnsiColor::Magenta) => TermColor::Magenta,
        (AnsiMode::Light, AnsiColor::Cyan) => TermColor::Cyan,
        (AnsiMode::Light, AnsiColor::White) => TermColor::White,
    }
}

/// The color of `crossterm` for a color.
pub open spec fn term_color(color: Color) -> TermColor {
    match color {
        Color::Ansi { color, mode } => ansi_constant(color, mode),
        Color::Rgb { r, g, b } => TermColor::Rgb { r, g, b },
    }
}

/// The color of `crossterm` for an optional color.
pub open spec fn term_color_option(color: Option<Color>) -> Option<TermColor> {
    match color {
        Some(color) => Some(term_color(color)),
        None => None,
    }
}

/// The attribute of `crossterm` for a text effect.
pub open spec fn attribute_of(effect: Effect) -> Attribute {
    match effect {
        Effect::Bold => Attribute::Bold,
        Effect::Italic => Attribute::Italic,
        Effect::Underline => Attribute::Underlined,
        Effect::Strikethrough => Attribute::CrossedOut,
    }
}

/// The attributes of `crossterm` for a set of text effects.
pub open spec fn attributes_of(effects: Effects) -> Attributes {
    Attributes {
        bold: effects.is_bold,
        italic: effects.is_italic,
        underlined: effects.is_underline,
        crossed_out: effects.is_strikethrough,
    }
}

/// The style of `crossterm` for a style.
pub open spec fn content_style(style: Style) -> ContentStyle {
    ContentStyle {
        foreground_color: term_color_option(style.fg),
        background_color: term_color_option(style.bg),
        attributes: attributes_of(style.effects),
    }
}

/// The style of `crossterm` for the optional style of a fragment: without a style, the
/// default style of `crossterm`, which sets nothing.
pub open spec fn content_style_option(style: Option<Style>) -> ContentStyle {
    match style {
        Some(style) => content_style(style),
        None => ContentStyle::unset(),
    }
}

/// The number in the 16-color palette that a symbolic constant of `crossterm` stands for,
/// as `crossterm` writes it to an ANSI terminal.  The other colors have none.
pub open spec fn palette_number(color: TermColor) -> Option<int> {
    match color {
        TermColor::Black => Some(0),
        TermColor::DarkRed => Some(1),
        TermColor::DarkGreen => Some(2),
        TermColor::DarkYellow => Some(3),
        TermColor::DarkBlue => Some(4),
        TermColor::DarkMagenta => Some(5),
        TermColor::DarkCyan => Some(6),
        TermColor::Grey => Some(7),
        TermColor::DarkGrey => Some(8),
        TermColor::Red => Some(9),
        TermColor::Green => Some(10),
        TermColor::Yellow => Some(11),
        TermColor::Blue => Some(12),
        TermColor::Magenta => Some(13),
        TermColor::Cyan => Some(14),
        TermColor::White => Some(15),
        _ => None,
    }
}

impl View for Attributes {
    type V = Set<Attribute>;

    /// The set of the attributes that are set.
    open spec fn view(&self) -> Set<Attribute> {
        Set::new(|a: Attribute| self.has(a))
    }
}

impl Attributes {
    /// The set without any attribute.
    pub open spec fn none() -> Attributes {
        Attributes { bold: false, italic: false, underlined: false, crossed_out: false }
    }

    /// Whether `attribute` belongs to this set.
    pub open spec fn has(self, attribute: Attribute) -> bool {
        match attribute {
            Attribute::Bold => self.bold,
            Attribute::Italic => self.italic,
            Attribute::Underlined => self.underlined,
            Attribute::CrossedOut => self.crossed_out,
        }
    }

    /// This set with `attribute` put in.
    pub open spec fn with(self, attribute: Attribute) -> Attributes {
        match attribute {
            Attribute::Bold => Attributes { bold: true, ..self },
            Attribute::Italic => Attributes { italic: true, ..self },
            Attribute::Underlined => Attributes { underlined: true, ..self },
            Attribute::CrossedOut => Attributes { crossed_out: true, ..self },
        }
    }

    /// Creates the set without any attribute.
    pub fn new() -> (res: Attributes)
        ensures
            res == Attributes::none(),
    {
        Attributes { bold: false, italic: false, underlined: false, crossed_out: false }
    }

    /// Sets the attribute.  If it is already set, this does nothing.
    pub fn set(&mut self, attribute: Attribute)
        ensures
            *final(self) == old(self).with(attribute),
            final(self)@ == old(self)@.insert(attribute),
    {
        match attribute {
            Attribute::Bold => self.bold = true,
            Attribute::Italic => self.italic = true,
            Attribute::Underlined => self.underlined = true,
            Attribute::CrossedOut => self.crossed_out = true,
        }
        assert(self@ =~= old(self)@.insert(attribute));
    }

    /// Returns whether there is no attribute set.
    pub fn is_empty(&self) -> (res: bool)
        ensures
            res == (*self == Attributes::none()),
    {
        !self.bold && !self.italic && !self.underlined && !self.crossed_out
    }
}

impl ContentStyle {
    /// The style that sets nothing.
    pub open spec fn unset() -> ContentStyle {
        ContentStyle {
            foreground_color: None,
            background_color: None,
            attributes: Attributes::none(),
        }
    }
}

impl Default for ContentStyle {
    /// The style that sets nothing.
    fn default() -> (res: ContentStyle)
        ensures
            res == ContentStyle::unset(),
    {
        ContentStyle {
            foreground_color: None,
            background_color: None,
            attributes: Attributes::new(),
        }
    }
}

impl FromSpecImpl<Color> for TermColor {
    open spec fn obeys_from_spec() -> bool {
        true
    }

    open spec fn from_spec(color: Color) -> TermColor {
        term_color(color)
    }
}

impl From<Color> for TermColor {
    /// Converts a color: an ANSI color to the symbolic constant of `crossterm` for it, an RGB
    /// color to the same components.
    fn from(color: Color) -> (res: TermColor)
        ensures
            res == term_color(color),
    {
        match color {
            Color::Ansi { color, mode } => match mode {
                AnsiMode::Dark => match color {
                    AnsiColor::Black => TermColor::Black,
                    AnsiColor::Red => TermColor::DarkRed,
                    AnsiColor::Green => TermColor::DarkGreen,
                    AnsiColor::Yellow => TermColor::DarkYellow,
                    AnsiColor::Blue => TermColor::DarkBlue,
                    AnsiColor::Magenta => TermColor::DarkMagenta,
                    AnsiColor::Cyan => TermColor::DarkCyan,
                    AnsiColor::White => TermColor::Grey,
                },
                AnsiMode::Light => match color {
                    AnsiColor::Black => TermColor::DarkGrey,
                    AnsiColor::Red => TermColor::Red,
                    AnsiColor::Green => TermColor::Green,
                    AnsiColor::Yellow => TermColor::Yellow,
                    AnsiColor::Blue => TermColor::Blue,
                    AnsiColor::Magenta => TermColor::Magenta,
                    AnsiColor::Cyan => TermColor::Cyan,
                    AnsiColor::White => TermColor::White,
                },
            },
            Color::Rgb { r, g, b } => TermColor::Rgb { r, g, b },
        }
    }
}

/// Converts an optional color.
fn convert_color(color: Option<Color>) -> (res: Option<TermColor>)
    ensures
        res == term_color_option(color),
{
    match color {
        Some(color) => Some(TermColor::from(color)),
        None => None,
    }
}

impl FromSpecImpl<Effect> for Attribute {
    open spec fn obeys_from_spec() -> bool {
        true
    }

    open spec fn from_spec(effect: Effect) -> Attribute {
        attribute_of(effect)
    }
}

impl From<Effect> for Attribute {
    /// Converts a text effect to the attribute of `crossterm` that stands for it.
    fn from(effect: Effect) -> (res: Attribute)
        ensures
            res == attribute_of(effect),
    {
        match effect {
            Effect::Bold => Attribute::Bold,
            Effect::Italic => Attribute::Italic,
            Effect::Underline => Attribute::Underlined,
            Effect::Strikethrough => Attribute::CrossedOut,
        }
    }
}

impl FromSpecImpl<Effects> for Attributes {
    open spec fn obeys_from_spec() -> bool {
        true
    }

    open spec fn from_spec(effects: Effects) -> Attributes {
        attributes_of(effects)
    }
}

impl From<Effects> for Attributes {
    /// Converts a set of text effects: the result holds the attribute of each effect of the
    /// set, and no other.
    fn from(effects: Effects) -> (res: Attributes)
        ensures
            res == attributes_of(effects),
            forall|e: Effect| res.has(attribute_of(e)) == effects.has(e),
    {
        let list = effects.to_vec();
        let mut attributes = Attributes::new();
        let mut i: usize = 0;
        while i < list.len()
            invariant
                i <= list.len(),
                forall|e: Effect|
                    attributes.has(attribute_of(e)) == list@.take(i as int).contains(e),
            decreases list.len() - i,
        {
            let effect = list[i];
            let ghost before = attributes;
            attributes.set(Attribute::from(effect));
            i += 1;
            proof {
                let prev = list@.take(i - 1);
                assert(list@.take(i as int) =~= prev.push(effect));
                assert forall|e: Effect|
                    attributes.has(attribute_of(e)) == prev.push(effect).contains(e) by {
                    assert(before.has(attribute_of(e)) == prev.contains(e));
                    lemma_seq_contains_after_push(prev, effect, e);
                }
            }
        }
        proof {
            assert(list@.take(i as int) =~= list@);
            crate::effects::lemma_ordered(effects);
            assert(attributes.has(attribute_of(Effect::Bold)) == effects.has(Effect::Bold));
            assert(attributes.has(attribute_of(Effect::Italic)) == effects.has(Effect::Italic));
            assert(attributes.has(attribute_of(Effect::Underline)) == effects.has(
                Effect::Underline,
            ));
            assert(attributes.has(attribute_of(Effect::Strikethrough)) == effects.has(
                Effect::Strikethrough,
            ));
        }
        attributes
    }
}

impl FromSpecImpl<Style> for ContentStyle {
    open spec fn obeys_from_spec() -> bool {
        true
    }

    open spec fn from_spec(style: Style) -> ContentStyle {
        content_style(style)
    }
}

impl From<Style> for ContentStyle {
    /// Converts a style: each color where it is set, and the effects.
    fn from(style: Style) -> (res: ContentStyle)
        ensures
            res == content_style(style),
    {
        ContentStyle {
            foreground_color: convert_color(style.fg),
            background_color: convert_color(style.bg),
            attributes: Attributes::from(style.effects),
        }
    }
}

/// Returns the style of `crossterm` for the optional style of a fragment.
pub fn convert_style(style: Option<Style>) -> (res: ContentStyle)
    ensures
        res == content_style_option(style),
{
    match style {
        Some(style) => ContentStyle::from(style),
        None => ContentStyle::default(),
    }
}

impl<'a, 'b> FromSpecImpl<&'b StyledStr<'a>> for StyledContent<'a> {
    open spec fn obeys_from_spec() -> bool {
        true
    }

    open spec fn from_spec(s: &'b StyledStr<'a>) -> StyledContent<'a> {
        StyledContent { style: content_style_option(s.style), content: s.s }
    }
}

impl<'a, 'b> From<&'b StyledStr<'a>> for StyledContent<'a> {
    /// Converts a styled string: the style is converted, the text is the same.
    fn from(s: &'b StyledStr<'a>) -> (res: StyledContent<'a>)
        ensures
            res == (StyledContent { style: content_style_option(s.style), content: s.s }),
    {
        StyledContent { style: convert_style(s.style), content: s.s }
    }
}

impl<'a> FromSpecImpl<StyledStr<'a>> for StyledContent<'a> {
    open spec fn obeys_from_spec() -> bool {
        true
    }

    open spec fn from_spec(s: StyledStr<'a>) -> StyledContent<'a> {
        StyledContent { style: content_style_option(s.style), content: s.s }
    }
}

impl<'a> From<StyledStr<'a>> for StyledContent<'a> {
    /// Converts a styled string: the style is converted, the text is the same.
    fn from(s: StyledStr<'a>) -> (res: StyledContent<'a>)
        ensures
            res == (StyledContent { style: content_style_option(s.style), content: s.s }),
    {
        StyledContent { style: convert_style(s.style), content: s.s }
    }
}

impl FromSpecImpl<StyledString> for StyledContentString {
    open spec fn obeys_from_spec() -> bool {
        true
    }

    open spec fn from_spec(s: StyledString) -> StyledContentString {
        StyledContentString { style: content_style_option(s.style), content: s.s }
    }
}

impl From<StyledString> for StyledContentString {
    /// Converts a styled string: the style is converted, the text is the same.
    fn from(s: StyledString) -> (res: StyledContentString)
        ensures
            res == (StyledContentString { style: content_style_option(s.style), content: s.s }),
    {
        StyledContentString { style: convert_style(s.style), content: s.s }
    }
}

/// An ANSI color is sent to the constant of `crossterm` that stands for its place in the
/// 16-color palette: the number of the base color for a dark color, eight more for a light
/// one.
pub proof fn lemma_ansi_constant_number(color: AnsiColor, mode: AnsiMode)
    ensures
        palette_number(ansi_constant(color, mode)) == Some(
            color.index() + if mode == AnsiMode::Light {
                8int
            } else {
                0int
            },
        ),
{
}

/// No two colors are converted to the same color of `crossterm`, and the components of an
/// RGB color are kept as they are.
pub proof fn lemma_term_color_injective(a: Color, b: Color)
    ensures
        term_color(a) == term_color(b) ==> a == b,
        a matches Color::Rgb { r, g, b } ==> term_color(a) == (TermColor::Rgb { r, g, b }),
{
}

/// The attributes of a converted set are the images of its effects, as sets.
pub proof fn lemma_attributes_view(effects: Effects)
    ensures
        attributes_of(effects)@ == effects@.map(|e: Effect| attribute_of(e)),
        forall|e: Effect| attributes_of(effects).has(attribute_of(e)) == effects.has(e),
{
    let image = effects@.map(|e: Effect| attribute_of(e));
    assert forall|a: Attribute| attributes_of(effects)@.contains(a) == image.contains(a) by {
        let e = match a {
            Attribute::Bold => Effect::Bold,
            Attribute::Italic => Effect::Italic,
            Attribute::Underlined => Effect::Underline,
            Attribute::CrossedOut => Effect::Strikethrough,
        };
        assert(attribute_of(e) == a);
        if effects.has(e) {
            assert(effects@.contains(e));
        }
        if image.contains(a) {
            let w = choose|w: Effect| effects@.contains(w) && attribute_of(w) == a;
            assert(w == e);
        }
    }
    assert(attributes_of(effects)@ =~= image);
}

} // verus!
