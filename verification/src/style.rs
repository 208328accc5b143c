//! Text styles: optional colors and a set of effects.

use vstd::prelude::*;
use vstd::std_specs::convert::FromSpecImpl;

use crate::color::Color;
use crate::effects::{Effect, Effects};

verus! {

/// A text style, a combination of a foreground color, a background color and text effects (all
/// optional).
///
/// A color that is `None` is unspecified, which differs from every explicit color.
#[derive(Clone, Copy, Debug, PartialEq, Eq, Structural)]
pub struct Style {
    /// The foreground color (if set).
    pub fg: Option<Color>,
    /// The background color (if set).
    pub bg: Option<Color>,
    /// The text effects.
    pub effects: Effects,
}

/// `top` where it is set, else `base`.
pub open spec fn overridden(base: Option<Color>, top: Option<Color>) -> Option<Color> {
    if top is Some {
        top
    } else {
        base
    }
}

impl Style {
    /// The style that sets nothing.
    pub open spec fn plain() -> Style {
        Style { fg: None, bg: None, effects: Effects::none() }
    }

    /// This style overridden by `top`: a color of `top` replaces the color of this style where
    /// `top` has one, and the effects of both are united.
    pub open spec fn merged(self, top: Style) -> Style {
        Style {
            fg: overridden(self.fg, top.fg),
            bg: overridden(self.bg, top.bg),
            effects: self.effects.union(top.effects),
        }
    }

    /// The composition of two optional styles: nothing where both are absent, the present one
    /// where one is absent, and the first overridden by the second where both are present.
    pub open spec fn merged_options(base: Option<Style>, top: Option<Style>) -> Option<Style> {
        match (base, top) {
            (None, None) => None,
            (Some(a), None) => Some(a),
            (None, Some(b)) => Some(b),
            (Some(a), Some(b)) => Some(a.merged(b)),
        }
    }

    /// Creates a new style with the given foreground and background colors and effects.
    pub fn new(fg: Option<Color>, bg: Option<Color>, effects: Effects) -> (res: Style)
        ensures
            res == (Style { fg, bg, effects }),
    {
        Style { fg, bg, effects }
    }

    /// Creates a new style with the given foreground color.
    pub fn fg(color: Color) -> (res: Style)
        ensures
            res == (Style { fg: Some(color), ..Style::plain() }),
    {
        Style::new(Some(color), None, Effects::new())
    }

    /// Creates a new style with the given background color.
    pub fn bg(color: Color) -> (res: Style)
        ensures
            res == (Style { bg: Some(color), ..Style::plain() }),
    {
        Style::new(None, Some(color), Effects::new())
    }

    /// Creates a new style with the given text effect.
    pub fn effect(effect: Effect) -> (res: Style)
        ensures
            res == (Style { effects: Effects::single(effect), ..Style::plain() }),
    {
        Style::new(None, None, Effects::only(effect))
    }

    /// Creates a new style with the given text effects.
    pub fn effects(effects: Effects) -> (res: Style)
        ensures
            res == (Style { effects, ..Style::plain() }),
    {
        Style::new(None, None, effects)
    }

    /// Combines this style with another style.
    ///
    /// If a color is set by both styles, the color of this style is overwritten by the color
    /// of `style`.  The effects of the result are those of both styles.
    pub fn and(self, style: Style) -> (res: Style)
        ensures
            res == self.merged(style),
    {
        let mut res = self;
        if let Some(fg) = style.fg {
            res.fg = Some(fg);
        }
        if let Some(bg) = style.bg {
            res.bg = Some(bg);
        }
        res.effects = res.effects.and(style.effects);
        res
    }

    /// Combines two optional styles.
    ///
    /// Two absent styles stay absent; where one is absent the result is the other one; two
    /// present styles are combined with [`Style::and`].
    pub fn and_option(base: Option<Style>, top: Option<Style>) -> (res: Option<Style>)
        ensures
            res == Style::merged_options(base, top),
    {
        match base {
            None => top,
            Some(a) => match top {
                None => Some(a),
                Some(b) => Some(a.and(b)),
            },
        }
    }

    /// Sets the foreground color of this style.
    pub fn set_fg(&mut self, color: Color)
        ensures
            *final(self) == (Style { fg: Some(color), ..*old(self) }),
    {
        self.fg = Some(color);
    }

    /// Sets the background color of this style.
    pub fn set_bg(&mut self, color: Color)
        ensures
            *final(self) == (Style { bg: Some(color), ..*old(self) }),
    {
        self.bg = Some(color);
    }

    /// Sets or unsets the bold effect for this style.
    pub fn set_bold(&mut self, bold: bool)
        ensures
            *final(self) == (Style {
                effects: old(self).effects.with(Effect::Bold, bold),
                ..*old(self)
            }),
    {
        self.effects.is_bold = bold;
    }

    /// Sets or unsets the italic effect for this style.
    pub fn set_italic(&mut self, italic: bool)
        ensures
            *final(self) == (Style {
                effects: old(self).effects.with(Effect::Italic, italic),
                ..*old(self)
            }),
    {
        self.effects.is_italic = italic;
    }

    /// Sets or unsets the underline effect for this style.
    pub fn set_underline(&mut self, underline: bool)
        ensures
            *final(self) == (Style {
                effects: old(self).effects.with(Effect::Underline, underline),
                ..*old(self)
            }),
    {
        self.effects.is_underline = underline;
    }

    /// Sets or unsets the strikethrough effect for this style.
    pub fn strikethrough(&mut self, strikethrough: bool)
        ensures
            *final(self) == (Style {
                effects: old(self).effects.with(Effect::Strikethrough, strikethrough),
                ..*old(self)
            }),
    {
        self.effects.is_strikethrough = strikethrough;
    }

    /// Sets or unsets the given effect for this style.
    pub fn set_effect(&mut self, effect: Effect, set: bool)
        ensures
            *final(self) == (Style { effects: old(self).effects.with(effect, set), ..*old(self) }),
    {
        self.effects.set(effect, set);
    }
}

impl Default for Style {
    /// The style that sets nothing.
    fn default() -> (res: Style)
        ensures
            res == Style::plain(),
    {
        Style { fg: None, bg: None, effects: Effects::new() }
    }
}

impl FromSpecImpl<Effect> for Style {
    open spec fn obeys_from_spec() -> bool {
        true
    }

    open spec fn from_spec(effect: Effect) -> Style {
        Style { effects: Effects::single(effect), ..Style::plain() }
    }
}

impl From<Effect> for Style {
    /// The style that sets only `effect`.
    fn from(effect: Effect) -> (res: Style)
        ensures
            res == (Style { effects: Effects::single(effect), ..Style::plain() }),
    {
        Style::effect(effect)
    }
}

impl FromSpecImpl<Effects> for Style {
    open spec fn obeys_from_spec() -> bool {
        true
    }

    open spec fn from_spec(effects: Effects) -> Style {
        Style { effects, ..Style::plain() }
    }
}

impl From<Effects> for Style {
    /// The style that sets only `effects`.
    fn from(effects: Effects) -> (res: Style)
        ensures
            res == (Style { effects, ..Style::plain() }),
    {
        Style::effects(effects)
    }
}

/// Combining styles is associative: it does not matter which of two neighbours in a chain of
/// styles is combined first.
pub proof fn lemma_merged_associative(a: Style, b: Style, c: Style)
    ensures
        a.merged(b).merged(c) == a.merged(b.merged(c)),
{
}

/// The effects of a combined style are the union of the effects of its parts, as sets.
pub proof fn lemma_merged_effects(a: Style, b: Style)
    ensures
        a.merged(b).effects@ == a.effects@.union(b.effects@),
{
    assert(a.effects.union(b.effects)@ =~= a.effects@.union(b.effects@));
}

/// The last color wins: where both styles set a color, the combined style has the color of
/// the second one.  In particular, a style made of the foreground `a` combined with one made
/// of the foreground `b` has the foreground `b`.
pub proof fn lemma_merged_last_color_wins(base: Style, top: Style, a: Color, b: Color)
    ensures
        top.fg is Some ==> base.merged(top).fg == top.fg,
        top.bg is Some ==> base.merged(top).bg == top.bg,
        top.fg is None ==> base.merged(top).fg == base.fg,
        top.bg is None ==> base.merged(top).bg == base.bg,
        (Style { fg: Some(a), ..Style::plain() }).merged(
            Style { fg: Some(b), ..Style::plain() },
        ).fg == Some(b),
        (Style { bg: Some(a), ..Style::plain() }).merged(
            Style { bg: Some(b), ..Style::plain() },
        ).bg == Some(b),
{
}

/// The style that sets nothing changes no style that it is combined with, on either side.
pub proof fn lemma_merged_plain(a: Style)
    ensures
        a.merged(Style::plain()) == a,
        Style::plain().merged(a) == a,
{
}

/// Combining optional styles is associative as well, and an absent style changes nothing.
pub proof fn lemma_merged_options_associative(
    a: Option<Style>,
    b: Option<Style>,
    c: Option<Style>,
)
    ensures
        Style::merged_options(Style::merged_options(a, b), c) == Style::merged_options(
            a,
            Style::merged_options(b, c),
        ),
        Style::merged_options(a, None) == a,
        Style::merged_options(None, a) == a,
{
}

} // verus!
