//! Strings with an optional style annotation, borrowed and owned.

use vstd::prelude::*;
use vstd::std_specs::convert::FromSpecImpl;

use crate::color::Color;
use crate::effects::{Effect, Effects};
use crate::style::Style;

verus! {

/// A styled fragment as a mathematical value: a text and an optional style.
///
/// It is the view of both [`StyledStr`] and [`StyledString`].
pub struct StyledText {
    /// The characters of the text.
    pub text: Seq<char>,
    /// The style of the text.
    pub style: Option<Style>,
}

impl StyledText {
    /// The style of this fragment, or the style that sets nothing where it has none.
    pub open spec fn style_or_plain(self) -> Style {
        match self.style {
            Some(style) => style,
            None => Style::plain(),
        }
    }

    /// This fragment with another style.
    pub open spec fn restyled(self, style: Style) -> StyledText {
        StyledText { text: self.text, style: Some(style) }
    }

    /// This fragment with the foreground color `fg`.
    pub open spec fn with_fg(self, fg: Color) -> StyledText {
        self.restyled(Style { fg: Some(fg), ..self.style_or_plain() })
    }

    /// This fragment with the background color `bg`.
    pub open spec fn with_bg(self, bg: Color) -> StyledText {
        self.restyled(Style { bg: Some(bg), ..self.style_or_plain() })
    }

    /// This fragment with `effect` set.
    pub open spec fn with_effect(self, effect: Effect) -> StyledText {
        self.restyled(
            Style {
                effects: self.style_or_plain().effects.with(effect, true),
                ..self.style_or_plain()
            },
        )
    }
}

/// A borrowed string with an optional style annotation.
#[derive(Clone, Debug, PartialEq)]
pub struct StyledStr<'a> {
    /// The content of this string.
    pub s: &'a str,
    /// The style of this string.
    pub style: Option<Style>,
}

/// An owned string with an optional style annotation.
#[derive(Clone, Debug, PartialEq)]
pub struct StyledString {
    /// The content of this string.
    pub s: String,
    /// The style of this string.
    pub style: Option<Style>,
}

impl<'a> View for StyledStr<'a> {
    type V = StyledText;

    open spec fn view(&self) -> StyledText {
        StyledText { text: self.s@, style: self.style }
    }
}

impl View for StyledString {
    type V = StyledText;

    open spec fn view(&self) -> StyledText {
        StyledText { text: self.s@, style: self.style }
    }
}

impl<'a> StyledStr<'a> {
    /// Creates a new styled string from the given string and an optional style.
    pub fn new(s: &'a str, style: Option<Style>) -> (res: StyledStr<'a>)
        ensures
            res.s == s,
            res.style == style,
    {
        StyledStr { s, style }
    }

    /// Creates a new styled string from the given string and style.
    pub fn styled(s: &'a str, style: Style) -> (res: StyledStr<'a>)
        ensures
            res.s == s,
            res.style == Some(style),
    {
        StyledStr::new(s, Some(style))
    }

    /// Creates a new styled string from the given string without a style.
    pub fn plain(s: &'a str) -> (res: StyledStr<'a>)
        ensures
            res.s == s,
            res.style == None::<Style>,
    {
        StyledStr::new(s, None)
    }

    /// Sets the foreground color for this styled string.
    pub fn with(self, fg: Color) -> (res: Self)
        ensures
            res.s == self.s,
            res@ == self@.with_fg(fg),
    {
        let mut res = self;
        res.style_mut().fg = Some(fg);
        res
    }

    /// Sets the background color for this styled string.
    pub fn on(self, bg: Color) -> (res: Self)
        ensures
            res.s == self.s,
            res@ == self@.with_bg(bg),
    {
        let mut res = self;
        res.style_mut().bg = Some(bg);
        res
    }

    /// Sets the bold effect for this styled string.
    pub fn bold(self) -> (res: Self)
        ensures
            res.s == self.s,
            res@ == self@.with_effect(Effect::Bold),
    {
        self.effect(Effect::Bold)
    }

    /// Sets the italic effect for this styled string.
    pub fn italic(self) -> (res: Self)
        ensures
            res.s == self.s,
            res@ == self@.with_effect(Effect::Italic),
    {
        self.effect(Effect::Italic)
    }

    /// Sets the underline effect for this styled string.
    pub fn underline(self) -> (res: Self)
        ensures
            res.s == self.s,
            res@ == self@.with_effect(Effect::Underline),
    {
        self.effect(Effect::Underline)
    }

    /// Sets the strikethrough effect for this styled string.
    pub fn strikethrough(self) -> (res: Self)
        ensures
            res.s == self.s,
            res@ == self@.with_effect(Effect::Strikethrough),
    {
        self.effect(Effect::Strikethrough)
    }

    /// Sets the given effect for this styled string.
    pub fn effect(self, effect: Effect) -> (res: Self)
        ensures
            res.s == self.s,
            res@ == self@.with_effect(effect),
    {
        let mut res = self;
        res.style_mut().effects.set(effect, true);
        res
    }

    /// Returns a mutable reference to the style of this string, creating a new style with the
    /// default settings if the style is currently `None`.
    pub fn style_mut(&mut self) -> (res: &mut Style)
        ensures
            *res == old(self)@.style_or_plain(),
            final(self).s == old(self).s,
            final(self).style == Some(*final(res)),
    {
        self.style.get_or_insert(Style::default())
    }
}

impl StyledString {
    /// Creates a new styled string from the given string and an optional style.
    pub fn new(s: String, style: Option<Style>) -> (res: StyledString)
        ensures
            res.s == s,
            res.style == style,
    {
        StyledString { s, style }
    }

    /// Creates a new styled string from the given string and style.
    pub fn styled(s: String, style: Style) -> (res: StyledString)
        ensures
            res.s == s,
            res.style == Some(style),
    {
        StyledString::new(s, Some(style))
    }

    /// Creates a new styled string from the given string without a style.
    pub fn plain(s: String) -> (res: StyledString)
        ensures
            res.s == s,
            res.style == None::<Style>,
    {
        StyledString::new(s, None)
    }

    /// Sets the foreground color for this styled string.
    pub fn with(self, fg: Color) -> (res: Self)
        ensures
            res.s == self.s,
            res@ == self@.with_fg(fg),
    {
        let mut res = self;
        res.style_mut().fg = Some(fg);
        res
    }

    /// Sets the background color for this styled string.
    pub fn on(self, bg: Color) -> (res: Self)
        ensures
            res.s == self.s,
            res@ == self@.with_bg(bg),
    {
        let mut res = self;
        res.style_mut().bg = Some(bg);
        res
    }

    /// Sets the bold effect for this styled string.
    pub fn bold(self) -> (res: Self)
        ensures
            res.s == self.s,
            res@ == self@.with_effect(Effect::Bold),
    {
        self.effect(Effect::Bold)
    }

    /// Sets the italic effect for this styled string.
    pub fn italic(self) -> (res: Self)
        ensures
            res.s == self.s,
            res@ == self@.with_effect(Effect::Italic),
    {
        self.effect(Effect::Italic)
    }

    /// Sets the underline effect for this styled string.
    pub fn underline(self) -> (res: Self)
        ensures
            res.s == self.s,
            res@ == self@.with_effect(Effect::Underline),
    {
        self.effect(Effect::Underline)
    }

    /// Sets the strikethrough effect for this styled string.
    pub fn strikethrough(self) -> (res: Self)
        ensures
            res.s == self.s,
            res@ == self@.with_effect(Effect::Strikethrough),
    {
        self.effect(Effect::Strikethrough)
    }

    /// Sets the given effect for this styled string.
    pub fn effect(self, effect: Effect) -> (res: Self)
        ensures
            res.s == self.s,
            res@ == self@.with_effect(effect),
    {
        let mut res = self;
        res.style_mut().effects.set(effect, true);
        res
    }

    /// Returns a mutable reference to the style of this string, creating a new style with the
    /// default settings if the style is currently `None`.
    pub fn style_mut(&mut self) -> (res: &mut Style)
        ensures
            *res == old(self)@.style_or_plain(),
            final(self).s == old(self).s,
            final(self).style == Some(*final(res)),
    {
        self.style.get_or_insert(Style::default())
    }
}

impl Default for StyledString {
    /// The empty string without a style.
    fn default() -> (res: StyledString)
        ensures
            res@.text == Seq::<char>::empty(),
            res.style == None::<Style>,
    {
        StyledString { s: String::new(), style: None }
    }
}

impl<'a, 'b> FromSpecImpl<&'b StyledStr<'a>> for StyledStr<'a> {
    open spec fn obeys_from_spec() -> bool {
        true
    }

    open spec fn from_spec(s: &'b StyledStr<'a>) -> StyledStr<'a> {
        StyledStr { s: s.s, style: s.style }
    }
}

impl<'a, 'b> From<&'b StyledStr<'a>> for StyledStr<'a> {
    /// A copy of the borrowed string: the same text and the same style.
    fn from(s: &'b StyledStr<'a>) -> (res: StyledStr<'a>)
        ensures
            res == *s,
            res@ == s@,
    {
        StyledStr { s: s.s, style: s.style }
    }
}

impl<'a> FromSpecImpl<&'a StyledString> for StyledStr<'a> {
    open spec fn obeys_from_spec() -> bool {
        false
    }

    open spec fn from_spec(s: &'a StyledString) -> StyledStr<'a> {
        arbitrary()
    }
}

impl<'a> From<&'a StyledString> for StyledStr<'a> {
    /// Borrows an owned string: the same text and the same style.
    fn from(s: &'a StyledString) -> (res: StyledStr<'a>)
        ensures
            res@ == s@,
    {
        StyledStr { s: s.s.as_str(), style: s.style }
    }
}

impl<'a> FromSpecImpl<StyledStr<'a>> for StyledString {
    open spec fn obeys_from_spec() -> bool {
        false
    }

    open spec fn from_spec(s: StyledStr<'a>) -> StyledString {
        arbitrary()
    }
}

impl<'a> From<StyledStr<'a>> for StyledString {
    /// Copies the text of a borrowed string: the same text and the same style.
    fn from(s: StyledStr<'a>) -> (res: StyledString)
        ensures
            res@ == s@,
    {
        StyledString { s: s.s.to_owned(), style: s.style }
    }
}

impl<'a> FromSpecImpl<&'a str> for StyledStr<'a> {
    open spec fn obeys_from_spec() -> bool {
        true
    }

    open spec fn from_spec(s: &'a str) -> StyledStr<'a> {
        StyledStr { s, style: None }
    }
}

impl<'a> From<&'a str> for StyledStr<'a> {
    /// The given text without a style.
    fn from(s: &'a str) -> (res: StyledStr<'a>)
        ensures
            res == (StyledStr { s, style: None }),
    {
        StyledStr::plain(s)
    }
}

impl FromSpecImpl<String> for StyledString {
    open spec fn obeys_from_spec() -> bool {
        true
    }

    open spec fn from_spec(s: String) -> StyledString {
        StyledString { s, style: None }
    }
}

impl From<String> for StyledString {
    /// The given text without a style.
    fn from(s: String) -> (res: StyledString)
        ensures
            res == (StyledString { s, style: None }),
    {
        StyledString::plain(s)
    }
}

/// No builder step changes the text of a fragment.
pub proof fn lemma_builders_keep_text(x: StyledText, color: Color, effect: Effect)
    ensures
        x.with_fg(color).text == x.text,
        x.with_bg(color).text == x.text,
        x.with_effect(effect).text == x.text,
{
}

/// A fragment without a style on which one effect is set has a style with exactly this
/// effect, and no color.
pub proof fn lemma_effect_on_plain(text: Seq<char>, effect: Effect)
    ensures
        ({
            let built = (StyledText { text, style: None }).with_effect(effect);
            &&& built.style == Some(Style { effects: Effects::single(effect), ..Style::plain() })
            &&& built.style.unwrap().effects.has(effect)
            &&& forall|other: Effect|
                other != effect ==> !built.style.unwrap().effects.has(other)
            &&& built.style.unwrap().effects@ == set![effect]
        }),
{
    let built = (StyledText { text, style: None }).with_effect(effect);
    assert(built.style.unwrap().effects@ =~= set![effect]);
}

/// A builder step sets what it names and keeps the rest of the style: a color step keeps the
/// other color and the effects, an effect step keeps both colors and the other effects.
pub proof fn lemma_builder_steps(x: StyledText, color: Color, effect: Effect)
    ensures
        x.with_fg(color).style == Some(Style { fg: Some(color), ..x.style_or_plain() }),
        x.with_bg(color).style == Some(Style { bg: Some(color), ..x.style_or_plain() }),
        x.with_effect(effect).style_or_plain().fg == x.style_or_plain().fg,
        x.with_effect(effect).style_or_plain().bg == x.style_or_plain().bg,
        x.with_effect(effect).style_or_plain().effects@ == x.style_or_plain().effects@.insert(
            effect,
        ),
{
    assert(x.with_effect(effect).style_or_plain().effects@ =~= x.style_or_plain().effects@.insert(
        effect,
    ));
}

/// Each builder step is the combination of the style so far with the style that sets only
/// what the step names.
pub proof fn lemma_builder_is_merge(x: StyledText, color: Color, effect: Effect)
    ensures
        x.with_fg(color).style_or_plain() == x.style_or_plain().merged(
            Style { fg: Some(color), ..Style::plain() },
        ),
        x.with_bg(color).style_or_plain() == x.style_or_plain().merged(
            Style { bg: Some(color), ..Style::plain() },
        ),
        x.with_effect(effect).style_or_plain() == x.style_or_plain().merged(
            Style { effects: Effects::single(effect), ..Style::plain() },
        ),
{
}

} // verus!
