//! Conversion to the style types of the `cursive` crate.
//!
//! `cursive` has symbolic base colors with a dark and a light form, so ANSI colors are mapped
//! onto those and never go through RGB components.
//!
//! The types of this module hold as plain values what `cursive::theme::BaseColor`, `Color`,
//! `Effect`, `ColorStyle` and `Style` hold, and what a `cursive::utils::markup::StyledString`
//! with a single style holds.

use vstd::prelude::*;
use vstd::seq_lib::lemma_seq_contains_after_push;
use vstd::std_specs::convert::FromSpecImpl;

use crate::color::{AnsiColor, AnsiMode, Color};
use crate::effects::{Effect, Effects};
use crate::style::Style;
use crate::styled::{StyledStr, StyledString};

verus! {

/// One of the eight base colors of `cursive`.
#[derive(Clone, Copy, Debug, PartialEq, Eq, Structural)]
#[allow(missing_docs)]
pub enum BaseColor {
    Black,
    Red,
    Green,
    Yellow,
    Blue,
    Magenta,
    Cyan,
    White,
}

/// A color of `cursive`: one variant for each variant of `cursive::theme::Color`.
#[derive(Clone, Copy, Debug, PartialEq, Eq, Structural)]
pub enum ThemeColor {
    /// The default color of the terminal.
    TerminalDefault,
    /// The dark version of a base color.
    Dark(BaseColor),
    /// The light version of a base color.
    Light(BaseColor),
    /// A 24-bit RGB color.
    Rgb(u8, u8, u8),
    /// A color of low resolution, with each component from 0 to 5.
    RgbLowRes(u8, u8, u8),
}

/// A text effect of `cursive`: one variant for each variant of `cursive::theme::Effect`.
#[derive(Clone, Copy, Debug, PartialEq, Eq, Structural)]
pub enum ThemeEffect {
    /// No effect.
    Simple,
    /// Reverses the foreground and background colors.
    Reverse,
    /// Bold text.
    Bold,
    /// Italic text.
    Italic,
    /// Struckthrough text.
    Strikethrough,
    /// Underlined text.
    Underline,
}

/// A set of text effects of `cursive`.
#[derive(Clone, Copy, Debug, PartialEq, Eq, Structural)]
#[allow(missing_docs)]
pub struct ThemeEffects {
    pub simple: bool,
    pub reverse: bool,
    pub bold: bool,
    pub italic: bool,
    pub strikethrough: bool,
    pub underline: bool,
}

/// A foreground and a background color, as a `cursive::theme::ColorStyle` made of two colors
/// holds them.
#[derive(Clone, Copy, Debug, PartialEq, Eq, Structural)]
pub struct ColorStyle {
    /// The color of the text.
    pub front: ThemeColor,
    /// The color of the background.
    pub back: ThemeColor,
}

/// A style of `cursive`: effects and, optionally, colors.
#[derive(Clone, Copy, Debug, PartialEq, Eq, Structural)]
pub struct ThemeStyle {
    /// The effects to apply.
    pub effects: ThemeEffects,
    /// The colors to apply; `None` to keep the colors as they are.
    pub color: Option<ColorStyle>,
}

/// A text with one style for the whole of it, as a `cursive::utils::markup::StyledString`
/// with a single span is one.
#[derive(Clone, Debug, PartialEq)]
pub struct Markup {
    /// The text.
    pub source: String,
    /// The style of the text.
    pub style: ThemeStyle,
}

/// The base color of `cursive` for an ANSI color: the one of the same name.
pub open spec fn base_color(color: AnsiColor) -> BaseColor {
    match color {
        AnsiColor::Black => BaseColor::Black,
        AnsiColor::Red => BaseColor::Red,
        AnsiColor::Green => BaseColor::Green,
        AnsiColor::Yellow => BaseColor::Yellow,
        AnsiColor::Blue => BaseColor::Blue,
        AnsiColor::Magenta => BaseColor::Magenta,
        AnsiColor::Cyan => BaseColor::Cyan,
        AnsiColor::White => BaseColor::White,
    }
}

/// The color of `cursive` for a color.
pub open spec fn theme_color(color: Color) -> ThemeColor {
    match color {
        Color::Ansi { color, mode: AnsiMode::Dark } => ThemeColor::Dark(base_color(color)),
        Color::Ansi { color, mode: AnsiMode::Light } => ThemeColor::Light(base_color(color)),
        Color::Rgb { r, g, b } => ThemeColor::Rgb(r, g, b),
    }
}

/// The color of `cursive` for an optional color: the default color of the terminal where
/// none is set.
pub open spec fn theme_color_or_default(color: Option<Color>) -> ThemeColor {
    match color {
        Some(color) => theme_color(color),
        None => ThemeColor::TerminalDefault,
    }
}

/// The colors of `cursive` for an optional foreground and background color: none where
/// neither is set, else both, with the default color of the terminal for the one that is not
/// set.
pub open spec fn color_style(fg: Option<Color>, bg: Option<Color>) -> Option<ColorStyle> {
    if fg is None && bg is None {
        None
    } else {
        Some(ColorStyle { front: theme_color_or_default(fg), back: theme_color_or_default(bg) })
    }
}

/// The text effect of `cursive` for a text effect: the one of the same name.
pub open spec fn theme_effect(effect: Effect) -> ThemeEffect {
    match effect {
        Effect::Bold => ThemeEffect::Bold,
        Effect::Italic => ThemeEffect::Italic,
        Effect::Underline => ThemeEffect::Underline,
        Effect::Strikethrough => ThemeEffect::Strikethrough,
    }
}

/// The set of text effects of `cursive` for a set of text effects.
pub open spec fn theme_effects(effects: Effects) -> ThemeEffects {
    ThemeEffects {
        simple: false,
        reverse: false,
        bold: effects.is_bold,
        italic: effects.is_italic,
        strikethrough: effects.is_strikethrough,
        underline: effects.is_underline,
    }
}

/// The style of `cursive` for a style.
pub open spec fn theme_style(style: Style) -> ThemeStyle {
    ThemeStyle { effects: theme_effects(style.effects), color: color_style(style.fg, style.bg) }
}

/// The style of `cursive` for the optional style of a fragment: without a style, the style
/// that applies nothing.
pub open spec fn theme_style_option(style: Option<Style>) -> ThemeStyle {
    match style {
        Some(style) => theme_style(style),
        None => ThemeStyle::none(),
    }
}

impl View for ThemeEffects {
    type V = Set<ThemeEffect>;

    /// The set of the effects that are set.
    open spec fn view(&self) -> Set<ThemeEffect> {
        Set::new(|e: ThemeEffect| self.has(e))
    }
}

impl ThemeEffects {
    /// The set without any effect.
    pub open spec fn none() -> ThemeEffects {
        ThemeEffects {
            simple: false,
            reverse: false,
            bold: false,
            italic: false,
            strikethrough: false,
            underline: false,
        }
    }

    /// Whether `effect` belongs to this set.
    pub open spec fn has(self, effect: ThemeEffect) -> bool {
        match effect {
            ThemeEffect::Simple => self.simple,
            ThemeEffect::Reverse => self.reverse,
            ThemeEffect::Bold => self.bold,
            ThemeEffect::Italic => self.italic,
            ThemeEffect::Strikethrough => self.strikethrough,
            ThemeEffect::Underline => self.underline,
        }
    }

    /// This set with `effect` put in.
    pub open spec fn with(self, effect: ThemeEffect) -> ThemeEffects {
        match effect {
            ThemeEffect::Simple => ThemeEffects { simple: true, ..self },
            ThemeEffect::Reverse => ThemeEffects { reverse: true, ..self },
            ThemeEffect::Bold => ThemeEffects { bold: true, ..self },
            ThemeEffect::Italic => ThemeEffects { italic: true, ..self },
            ThemeEffect::Strikethrough => ThemeEffects { strikethrough: true, ..self },
            ThemeEffect::Underline => ThemeEffects { underline: true, ..self },
        }
    }

    /// Creates the set without any effect.
    pub fn new() -> (res: ThemeEffects)
        ensures
            res == ThemeEffects::none(),
    {
        ThemeEffects {
            simple: false,
            reverse: false,
            bold: false,
            italic: false,
            strikethrough: false,
            underline: false,
        }
    }

    /// Puts an effect into this set.  If it is already there, this does nothing.
    pub fn insert(&mut self, effect: ThemeEffect)
        ensures
            *final(self) == old(self).with(effect),
            final(self)@ == old(self)@.insert(effect),
    {
        match effect {
            ThemeEffect::Simple => self.simple = true,
            ThemeEffect::Reverse => self.reverse = true,
            ThemeEffect::Bold => self.bold = true,
            ThemeEffect::Italic => self.italic = true,
            ThemeEffect::Strikethrough => self.strikethrough = true,
            ThemeEffect::Underline => self.underline = true,
        }
        assert(self@ =~= old(self)@.insert(effect));
    }
}

impl ThemeStyle {
    /// The style that applies nothing.
    pub open spec fn none() -> ThemeStyle {
        ThemeStyle { effects: ThemeEffects::none(), color: None }
    }
}

impl FromSpecImpl<AnsiColor> for BaseColor {
    open spec fn obeys_from_spec() -> bool {
        true
    }

    open spec fn from_spec(color: AnsiColor) -> BaseColor {
        base_color(color)
    }
}

impl From<AnsiColor> for BaseColor {
    /// Converts an ANSI base color to the base color of `cursive` of the same name.
    fn from(color: AnsiColor) -> (res: BaseColor)
        ensures
            res == base_color(color),
    {
        match color {
            AnsiColor::Black => BaseColor::Black,
            AnsiColor::Red => BaseColor::Red,
            AnsiColor::Green => BaseColor::Green,
            AnsiColor::Yellow => BaseColor::Yellow,
            AnsiColor::Blue => BaseColor::Blue,
            AnsiColor::Magenta => BaseColor::Magenta,
            AnsiColor::Cyan => BaseColor::Cyan,
            AnsiColor::White => BaseColor::White,
        }
    }
}

impl FromSpecImpl<Color> for ThemeColor {
    open spec fn obeys_from_spec() -> bool {
        true
    }

    open spec fn from_spec(color: Color) -> ThemeColor {
        theme_color(color)
    }
}

impl From<Color> for ThemeColor {
    /// Converts a color: an ANSI color to the dark or light form of the base color of
    /// `cursive` of the same name, an RGB color to the same components.
    fn from(color: Color) -> (res: ThemeColor)
        ensures
            res == theme_color(color),
    {
        match color {
            Color::Ansi { color, mode } => match mode {
                AnsiMode::Dark => ThemeColor::Dark(BaseColor::from(color)),
                AnsiMode::Light => ThemeColor::Light(BaseColor::from(color)),
            },
            Color::Rgb { r, g, b } => ThemeColor::Rgb(r, g, b),
        }
    }
}

impl FromSpecImpl<Effect> for ThemeEffect {
    open spec fn obeys_from_spec() -> bool {
        true
    }

    open spec fn from_spec(effect: Effect) -> ThemeEffect {
        theme_effect(effect)
    }
}

impl From<Effect> for ThemeEffect {
    /// Converts a text effect to the text effect of `cursive` of the same name.
    fn from(effect: Effect) -> (res: ThemeEffect)
        ensures
            res == theme_effect(effect),
    {
        match effect {
            Effect::Bold => ThemeEffect::Bold,
            Effect::Italic => ThemeEffect::Italic,
            Effect::Underline => ThemeEffect::Underline,
            Effect::Strikethrough => ThemeEffect::Strikethrough,
        }
    }
}

/// Collects the text effects of `cursive` for the effects of a set.
fn convert_effects(effects: Effects) -> (res: ThemeEffects)
    ensures
        res == theme_effects(effects),
        forall|e: Effect| res.has(theme_effect(e)) == effects.has(e),
{
    let mut res = ThemeEffects::new();
    let mut iter = effects.into_iter();
    let ghost mut done: Seq<Effect> = Seq::empty();
    loop
        invariant
            done + iter@ == effects.ordered(),
            !res.simple && !res.reverse,
            forall|e: Effect| res.has(theme_effect(e)) == done.contains(e),
        decreases iter@.len(),
    {
        let ghost pending = iter@;
        let ghost before = res;
        match iter.next() {
            Some(effect) => {
                res.insert(ThemeEffect::from(effect));
                proof {
                    let next = done.push(effect);
                    assert(pending =~= seq![effect] + pending.skip(1));
                    assert(next + iter@ =~= done + pending);
                    assert forall|e: Effect| res.has(theme_effect(e)) == next.contains(e) by {
                        assert(before.has(theme_effect(e)) == done.contains(e));
                        lemma_seq_contains_after_push(done, effect, e);
                    }
                    done = next;
                }
            },
            None => {
                proof {
                    assert(done =~= effects.ordered());
                    crate::effects::lemma_ordered(effects);
                    assert(res.has(theme_effect(Effect::Bold)) == effects.has(Effect::Bold));
                    assert(res.has(theme_effect(Effect::Italic)) == effects.has(Effect::Italic));
                    assert(res.has(theme_effect(Effect::Underline)) == effects.has(
                        Effect::Underline,
                    ));
                    assert(res.has(theme_effect(Effect::Strikethrough)) == effects.has(
                        Effect::Strikethrough,
                    ));
                }
                return res;
            },
        }
    }
}

/// Returns the colors of `cursive` for an optional foreground and background color.
pub fn get_color_style(fg: Option<Color>, bg: Option<Color>) -> (res: Option<ColorStyle>)
    ensures
        res == color_style(fg, bg),
{
    let mut front = ThemeColor::TerminalDefault;
    let mut back = ThemeColor::TerminalDefault;

    if let Some(fg) = fg {
        front = ThemeColor::from(fg);
    }
    if let Some(bg) = bg {
        back = ThemeColor::from(bg);
    }

    if front == ThemeColor::TerminalDefault && back == ThemeColor::TerminalDefault {
        None
    } else {
        Some(ColorStyle { front, back })
    }
}

impl FromSpecImpl<Style> for ThemeStyle {
    open spec fn obeys_from_spec() -> bool {
        true
    }

    open spec fn from_spec(style: Style) -> ThemeStyle {
        theme_style(style)
    }
}

impl From<Style> for ThemeStyle {
    /// Converts a style: the effects, and the colors where one of them is set.
    fn from(style: Style) -> (res: ThemeStyle)
        ensures
            res == theme_style(style),
    {
        ThemeStyle {
            effects: convert_effects(style.effects),
            color: get_color_style(style.fg, style.bg),
        }
    }
}

/// Returns the style of `cursive` for the optional style of a fragment.
pub fn convert_style(style: Option<Style>) -> (res: ThemeStyle)
    ensures
        res == theme_style_option(style),
{
    match style {
        Some(style) => ThemeStyle::from(style),
        None => ThemeStyle { effects: ThemeEffects::new(), color: None },
    }
}

/// A styled text of `cursive` as a mathematical value.
pub struct MarkupModel {
    /// The characters of the text.
    pub source: Seq<char>,
    /// The style of the text.
    pub style: ThemeStyle,
}

impl View for Markup {
    type V = MarkupModel;

    open spec fn view(&self) -> MarkupModel {
        MarkupModel { source: self.source@, style: self.style }
    }
}

impl<'a, 'b> FromSpecImpl<&'b StyledStr<'a>> for Markup {
    open spec fn obeys_from_spec() -> bool {
        false
    }

    open spec fn from_spec(s: &'b StyledStr<'a>) -> Markup {
        arbitrary()
    }
}

impl<'a, 'b> From<&'b StyledStr<'a>> for Markup {
    /// Converts a styled string: the style is converted, the text is the same.
    fn from(s: &'b StyledStr<'a>) -> (res: Markup)
        ensures
            res@ == (MarkupModel { source: s.s@, style: theme_style_option(s.style) }),
    {
        Markup { source: s.s.to_owned(), style: convert_style(s.style) }
    }
}

impl<'a> FromSpecImpl<StyledStr<'a>> for Markup {
    open spec fn obeys_from_spec() -> bool {
        false
    }

    open spec fn from_spec(s: StyledStr<'a>) -> Markup {
        arbitrary()
    }
}

impl<'a> From<StyledStr<'a>> for Markup {
    /// Converts a styled string: the style is converted, the text is the same.
    fn from(s: StyledStr<'a>) -> (res: Markup)
        ensures
            res@ == (MarkupModel { source: s.s@, style: theme_style_option(s.style) }),
    {
        Markup { source: s.s.to_owned(), style: convert_style(s.style) }
    }
}

impl FromSpecImpl<StyledString> for Markup {
    open spec fn obeys_from_spec() -> bool {
        true
    }

    open spec fn from_spec(s: StyledString) -> Markup {
        Markup { source: s.s, style: theme_style_option(s.style) }
    }
}

impl From<StyledString> for Markup {
    /// Converts a styled string: the style is converted, the text is the same.
    fn from(s: StyledString) -> (res: Markup)
        ensures
            res == (Markup { source: s.s, style: theme_style_option(s.style) }),
    {
        Markup { source: s.s, style: convert_style(s.style) }
    }
}

/// A style that sets nothing is converted to the style of `cursive` that applies nothing,
/// as a fragment without a style is.  A color that is set is never converted to the default
/// color of the terminal.
pub proof fn lemma_unset_style(color: Color)
    ensures
        theme_style(Style::plain()) == ThemeStyle::none(),
        theme_style_option(None) == ThemeStyle::none(),
        theme_color(color) != ThemeColor::TerminalDefault,
{
}

/// No two colors are converted to the same color of `cursive`, and the components of an RGB
/// color are kept as they are.
pub proof fn lemma_theme_color_injective(a: Color, b: Color)
    ensures
        theme_color(a) == theme_color(b) ==> a == b,
        a matches Color::Rgb { r, g, b } ==> theme_color(a) == ThemeColor::Rgb(r, g, b),
{
}

/// The effects of a converted set are the images of its effects, as sets.
pub proof fn lemma_theme_effects_view(effects: Effects)
    ensures
        theme_effects(effects)@ == effects@.map(|e: Effect| theme_effect(e)),
{
    let image = effects@.map(|e: Effect| theme_effect(e));
    assert forall|a: ThemeEffect| theme_effects(effects)@.contains(a) == image.contains(a) by {
        if image.contains(a) {
            let w = choose|w: Effect| effects@.contains(w) && theme_effect(w) == a;
            assert(effects.has(w));
        }
        if theme_effects(effects).has(a) {
            let e = match a {
                ThemeEffect::Bold => Effect::Bold,
                ThemeEffect::Italic => Effect::Italic,
                ThemeEffect::Underline => Effect::Underline,
                _ => Effect::Strikethrough,
            };
            assert(theme_effect(e) == a);
            assert(effects@.contains(e));
        }
    }
    assert(theme_effects(effects)@ =~= image);
}

} // verus!
