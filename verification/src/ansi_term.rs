//! Conversion to the styles of the `ansi_term` crate, and rendering with it.
//!
//! `ansi_term` has symbolic constants for the eight dark ANSI colors and takes the light ones
//! by their number in the 256-color palette, so ANSI colors are mapped onto those and never
//! go through RGB components.
//!
//! [`TermColor`] and [`TermStyle`] hold as plain values what `ansi_term::Colour` and
//! `ansi_term::Style` hold.  The conversions into them are verified.  [`render`] and
//! [`render_iter`] hand such values to `ansi_term` and return what it displays; the two
//! functions that make these calls are trusted, and say so.  What `ansi_term` displays is
//! stated by [`prefix_of`], [`suffix_of`] and [`infix_of`]: the control sequences that switch
//! a style on and off and that change from one style to the next.

use vstd::prelude::*;
use vstd::std_specs::convert::FromSpecImpl;

use crate::color::{AnsiColor, AnsiMode, Color};
use crate::effects::{Effect, Effects};
use crate::style::Style;
use crate::styled::StyledStr;

verus! {

/// Trusted: `ansi_term::Colour`, as a type whose values are only handed on.
#[verifier::external_type_specification]
#[verifier::external_body]
pub struct ExColour(::ansi_term::Colour);

/// A color of `ansi_term`: one variant for each variant of `ansi_term::Colour`.
#[derive(Clone, Copy, Debug, PartialEq, Eq, Structural)]
pub enum TermColor {
    /// Color #0 (foreground code 30, background code 40).
    Black,
    /// Color #1 (foreground code 31, background code 41).
    Red,
    /// Color #2 (foreground code 32, background code 42).
    Green,
    /// Color #3 (foreground code 33, background code 43).
    Yellow,
    /// Color #4 (foreground code 34, background code 44).
    Blue,
    /// Color #5 (foreground code 35, background code 45).
    Purple,
    /// Color #6 (foreground code 36, background code 46).
    Cyan,
    /// Color #7 (foreground code 37, background code 47).
    White,
    /// A color of the 256-color palette, by its number.
    Fixed(u8),
    /// A 24-bit RGB color.
    Rgb(u8, u8, u8),
}

/// A style of `ansi_term`: the fields of `ansi_term::Style` that this crate sets.  The other
/// fields of that type (dimmed, blink, reverse, hidden) are never set.
#[derive(Clone, Copy, Debug, PartialEq, Eq, Structural)]
pub struct TermStyle {
    /// The foreground color.
    pub foreground: Option<TermColor>,
    /// The background color.
    pub background: Option<TermColor>,
    /// Whether the text is bold.
    pub is_bold: bool,
    /// Whether the text is italic.
    pub is_italic: bool,
    /// Whether the text is underlined.
    pub is_underline: bool,
    /// Whether the text is struck through.
    pub is_strikethrough: bool,
}

/// The color of `ansi_term` for a dark ANSI color: the symbolic constant of the same hue.
pub open spec fn dark_color(color: AnsiColor) -> TermColor {
    match color {
        AnsiColor::Black => TermColor::Black,
        AnsiColor::Red => TermColor::Red,
        AnsiColor::Green => TermColor::Green,
        AnsiColor::Yellow => TermColor::Yellow,
        AnsiColor::Blue => TermColor::Blue,
        AnsiColor::Magenta => TermColor::Purple,
        AnsiColor::Cyan => TermColor::Cyan,
        AnsiColor::White => TermColor::White,
    }
}

/// The color of `ansi_term` for a light ANSI color: the palette entry eight places after the
/// number of the base color.
pub open spec fn light_color(color: AnsiColor) -> TermColor {
    TermColor::Fixed((8 + color.index()) as u8)
}

/// The color of `ansi_term` for a color.
pub open spec fn term_color(color: Color) -> TermColor {
    match color {
        Color::Ansi { color, mode: AnsiMode::Dark } => dark_color(color),
        Color::Ansi { color, mode: AnsiMode::Light } => light_color(color),
        Color::Rgb { r, g, b } => TermColor::Rgb(r, g, b),
    }
}

/// The color of `ansi_term` for an optional color.
pub open spec fn term_color_option(color: Option<Color>) -> Option<TermColor> {
    match color {
        Some(color) => Some(term_color(color)),
        None => None,
    }
}

/// The style of `ansi_term` for a style.
pub open spec fn term_style(style: Style) -> TermStyle {
    TermStyle {
        foreground: term_color_option(style.fg),
        background: term_color_option(style.bg),
        is_bold: style.effects.is_bold,
        is_italic: style.effects.is_italic,
        is_underline: style.effects.is_underline,
        is_strikethrough: style.effects.is_strikethrough,
    }
}

/// The style of `ansi_term` for the optional style of a fragment: without a style, the
/// style that sets nothing.
pub open spec fn term_style_option(style: Option<Style>) -> TermStyle {
    match style {
        Some(style) => term_style(style),
        None => TermStyle::plain(),
    }
}

impl TermStyle {
    /// The style that sets nothing.
    pub open spec fn plain() -> TermStyle {
        TermStyle {
            foreground: None,
            background: None,
            is_bold: false,
            is_italic: false,
            is_underline: false,
            is_strikethrough: false,
        }
    }

    /// Whether this style sets nothing.
    pub open spec fn is_plain(self) -> bool {
        self == TermStyle::plain()
    }

    /// Creates the style that sets nothing.
    pub fn new() -> (res: TermStyle)
        ensures
            res == TermStyle::plain(),
    {
        TermStyle {
            foreground: None,
            background: None,
            is_bold: false,
            is_italic: false,
            is_underline: false,
            is_strikethrough: false,
        }
    }
}

/// Returns the color of `ansi_term` for a dark ANSI color.
pub fn get_dark_color(color: AnsiColor) -> (res: TermColor)
    ensures
        res == dark_color(color),
{
    match color {
        AnsiColor::Black => TermColor::Black,
        AnsiColor::Red => TermColor::Red,
        AnsiColor::Green => TermColor::Green,
        AnsiColor::Yellow => TermColor::Yellow,
        AnsiColor::Blue => TermColor::Blue,
        AnsiColor::Magenta => TermColor::Purple,
        AnsiColor::Cyan => TermColor::Cyan,
        AnsiColor::White => TermColor::White,
    }
}

/// Returns the color of `ansi_term` for a light ANSI color.
pub fn get_light_color(color: AnsiColor) -> (res: TermColor)
    ensures
        res == light_color(color),
{
    match color {
        AnsiColor::Black => TermColor::Fixed(8),
        AnsiColor::Red => TermColor::Fixed(9),
        AnsiColor::Green => TermColor::Fixed(10),
        AnsiColor::Yellow => TermColor::Fixed(11),
        AnsiColor::Blue => TermColor::Fixed(12),
        AnsiColor::Magenta => TermColor::Fixed(13),
        AnsiColor::Cyan => TermColor::Fixed(14),
        AnsiColor::White => TermColor::Fixed(15),
    }
}

impl FromSpecImpl<Color> for TermColor {
    open spec fn obeys_from_spec() -> bool {
        true
    }

    open spec fn from_spec(color: Color) -> TermColor {
        term_color(color)
    }
}

impl From<Color> for TermColor {
    /// Converts a color: an ANSI color to the color of `ansi_term` of the same hue and mode,
    /// an RGB color to the same components.
    fn from(color: Color) -> (res: TermColor)
        ensures
            res == term_color(color),
    {
        match color {
            Color::Ansi { color, mode } => match mode {
                AnsiMode::Dark => get_dark_color(color),
                AnsiMode::Light => get_light_color(color),
            },
            Color::Rgb { r, g, b } => TermColor::Rgb(r, g, b),
        }
    }
}

/// Converts an optional color.
fn convert_color(color: Option<Color>) -> (res: Option<TermColor>)
    ensures
        res == term_color_option(color),
{
    match color {
        Some(color) => Some(TermColor::from(color)),
        None => None,
    }
}

impl FromSpecImpl<Style> for TermStyle {
    open spec fn obeys_from_spec() -> bool {
        true
    }

    open spec fn from_spec(style: Style) -> TermStyle {
        term_style(style)
    }
}

impl From<Style> for TermStyle {
    /// Converts a style: each color where it is set, and each of the four effects.
    fn from(style: Style) -> (res: TermStyle)
        ensures
            res == term_style(style),
    {
        TermStyle {
            foreground: convert_color(style.fg),
            background: convert_color(style.bg),
            is_bold: style.effects.is_bold,
            is_italic: style.effects.is_italic,
            is_underline: style.effects.is_underline,
            is_strikethrough: style.effects.is_strikethrough,
        }
    }
}

/// Returns the style of `ansi_term` for the optional style of a fragment.
pub fn convert_style(style: Option<Style>) -> (res: TermStyle)
    ensures
        res == term_style_option(style),
        style is None ==> res.is_plain(),
{
    match style {
        Some(style) => TermStyle::from(style),
        None => TermStyle::new(),
    }
}

/// The ten decimal digits.
pub open spec fn digits() -> Seq<char> {
    seq!['0', '1', '2', '3', '4', '5', '6', '7', '8', '9']
}

/// A number in decimal digits, without leading zeros.
pub open spec fn decimal(n: u8) -> Seq<char> {
    let n = n as int;
    if n < 10 {
        seq![digits()[n]]
    } else if n < 100 {
        seq![digits()[n / 10], digits()[n % 10]]
    } else {
        seq![digits()[n / 100], digits()[n / 10 % 10], digits()[n % 10]]
    }
}

/// The control code that selects a color, on the ground `'3'` as the color of the text and
/// on the ground `'4'` as the color behind it: the ground and the number of a symbolic color;
/// the ground and `8;5;` before the number of a color of the palette; the ground and `8;2;`
/// before the three components of an RGB color.
pub open spec fn color_code(ground: char, color: TermColor) -> Seq<char> {
    match color {
        TermColor::Black => seq![ground, '0'],
        TermColor::Red => seq![ground, '1'],
        TermColor::Green => seq![ground, '2'],
        TermColor::Yellow => seq![ground, '3'],
        TermColor::Blue => seq![ground, '4'],
        TermColor::Purple => seq![ground, '5'],
        TermColor::Cyan => seq![ground, '6'],
        TermColor::White => seq![ground, '7'],
        TermColor::Fixed(n) => seq![ground, '8', ';', '5', ';'] + decimal(n),
        TermColor::Rgb(r, g, b) => seq![ground, '8', ';', '2', ';'] + decimal(r) + seq![';']
            + decimal(g) + seq![';'] + decimal(b),
    }
}

/// A semicolon and the control code `code` if `set`, else nothing.
pub open spec fn code_if(set: bool, code: Seq<char>) -> Seq<char> {
    if set {
        seq![';'] + code
    } else {
        Seq::empty()
    }
}

/// A semicolon and the control code of `color` on `ground` if there is a color, else
/// nothing.
pub open spec fn color_code_if(ground: char, color: Option<TermColor>) -> Seq<char> {
    match color {
        Some(color) => seq![';'] + color_code(ground, color),
        None => Seq::empty(),
    }
}

/// The control codes of a style, each after a semicolon: 1 for bold, 3 for italic, 4 for
/// underline and 9 for strikethrough, then the code of the background color, then the code of
/// the foreground color.
pub open spec fn codes(style: TermStyle) -> Seq<char> {
    code_if(style.is_bold, seq!['1']) + code_if(style.is_italic, seq!['3']) + code_if(
        style.is_underline,
        seq!['4'],
    ) + code_if(style.is_strikethrough, seq!['9']) + color_code_if('4', style.background)
        + color_code_if('3', style.foreground)
}

/// What `ansi_term::Style::prefix` displays for a style: the control sequence that switches
/// the style on.  For the style that sets nothing it is empty.  For every other style it
/// holds the control codes of the style with semicolons between them, after `ESC [` and
/// before `m`.
pub open spec fn prefix_of(style: TermStyle) -> Seq<char> {
    if style.is_plain() {
        Seq::empty()
    } else {
        seq!['\x1b', '['] + codes(style).skip(1) + seq!['m']
    }
}

/// The control sequence that resets all styles.
pub open spec fn reset() -> Seq<char> {
    seq!['\x1b', '[', '0', 'm']
}

/// What `ansi_term::Style::suffix` displays for a style: the reset sequence, or nothing for
/// the style that sets nothing.
pub open spec fn suffix_of(style: TermStyle) -> Seq<char> {
    if style.is_plain() {
        Seq::empty()
    } else {
        reset()
    }
}

/// Whether the change from `style` to `next` takes something away: an effect, or a color
/// without another color in its place.  Nothing can be switched off alone, so such a change
/// needs a reset.
pub open spec fn takes_away(style: TermStyle, next: TermStyle) -> bool {
    ||| style.is_bold && !next.is_bold
    ||| style.is_italic && !next.is_italic
    ||| style.is_underline && !next.is_underline
    ||| style.is_strikethrough && !next.is_strikethrough
    ||| style.foreground is Some && next.foreground is None
    ||| style.background is Some && next.background is None
}

/// What `next` sets differently from `style`: the effects that only one of the two has, and
/// each color of `next` that differs from the color of `style`.
pub open spec fn difference(style: TermStyle, next: TermStyle) -> TermStyle {
    TermStyle {
        foreground: if style.foreground != next.foreground {
            next.foreground
        } else {
            None
        },
        background: if style.background != next.background {
            next.background
        } else {
            None
        },
        is_bold: style.is_bold != next.is_bold,
        is_italic: style.is_italic != next.is_italic,
        is_underline: style.is_underline != next.is_underline,
        is_strikethrough: style.is_strikethrough != next.is_strikethrough,
    }
}

/// What `ansi_term::Style::infix` displays for two styles: the control sequence that changes
/// from the first style to the second.  Between equal styles it is empty.  Where the change
/// takes something away, it is the reset sequence and the prefix of the second style.  Else
/// it is the prefix of what the second style sets differently.
pub open spec fn infix_of(style: TermStyle, next: TermStyle) -> Seq<char> {
    if style == next {
        Seq::empty()
    } else if takes_away(style, next) {
        reset() + prefix_of(next)
    } else {
        prefix_of(difference(style, next))
    }
}

/// What `ansi_term` displays for one painted text: the text between the prefix and the suffix
/// of its style.
pub open spec fn painted(style: TermStyle, text: Seq<char>) -> Seq<char> {
    prefix_of(style) + text + suffix_of(style)
}

/// A fragment for `ansi_term`: a style and a text.
pub type Piece<'a> = (TermStyle, &'a str);

/// What `ansi_term` displays for the fragments from the index `from` on, each after the
/// control sequence that changes from its predecessor's style to its own.
pub open spec fn painted_rest(pieces: Seq<Piece<'_>>, from: int) -> Seq<char>
    decreases pieces.len() - from,
{
    if 0 < from < pieces.len() {
        infix_of(pieces[from - 1].0, pieces[from].0) + pieces[from].1@ + painted_rest(
            pieces,
            from + 1,
        )
    } else {
        Seq::empty()
    }
}

/// What `ansi_term` displays for a sequence of fragments: nothing for the empty sequence;
/// else the first fragment after the prefix of its style, the other fragments each after the
/// change of style, and the reset sequence unless the last style sets nothing.
pub open spec fn painted_all(pieces: Seq<Piece<'_>>) -> Seq<char> {
    if pieces.len() == 0 {
        Seq::empty()
    } else {
        prefix_of(pieces[0].0) + pieces[0].1@ + painted_rest(pieces, 1) + suffix_of(
            pieces.last().0,
        )
    }
}

/// The texts of the fragments, one after the other.
pub open spec fn texts(pieces: Seq<Piece<'_>>) -> Seq<char> {
    pieces.map_values(|piece: Piece<'_>| piece.1@).flatten()
}

/// Trusted: builds the value of `ansi_term::Colour` that `color` names, variant by variant.
/// It serves [`paint`] and [`paint_all`], which hand the value on to `ansi_term`.
#[verifier::external_body]
fn raw_color(color: TermColor) -> ::ansi_term::Colour {
    match color {
        TermColor::Black => ::ansi_term::Colour::Black,
        TermColor::Red => ::ansi_term::Colour::Red,
        TermColor::Green => ::ansi_term::Colour::Green,
        TermColor::Yellow => ::ansi_term::Colour::Yellow,
        TermColor::Blue => ::ansi_term::Colour::Blue,
        TermColor::Purple => ::ansi_term::Colour::Purple,
        TermColor::Cyan => ::ansi_term::Colour::Cyan,
        TermColor::White => ::ansi_term::Colour::White,
        TermColor::Fixed(n) => ::ansi_term::Colour::Fixed(n),
        TermColor::Rgb(r, g, b) => ::ansi_term::Colour::RGB(r, g, b),
    }
}

/// Trusted: calls `ansi_term::Style::paint` on `text`, with the style of `ansi_term` that has
/// the fields of `style`, and returns what the painted string displays.
///
/// `ansi_term` displays what `Style::prefix` displays for the style, the text, and what
/// `Style::suffix` displays for the style.  [`prefix_of`] and [`suffix_of`] say what these
/// are.
#[verifier::external_body]
fn paint(style: &TermStyle, text: &str) -> (out: String)
    ensures
        out@ == prefix_of(*style) + text@ + suffix_of(*style),
{
    ::ansi_term::Style {
        foreground: style.foreground.map(raw_color),
        background: style.background.map(raw_color),
        is_bold: style.is_bold,
        is_italic: style.is_italic,
        is_underline: style.is_underline,
        is_strikethrough: style.is_strikethrough,
        ..::ansi_term::Style::default()
    }.paint(text).to_string()
}

/// Trusted: paints each fragment as [`paint`] does, hands them to `ansi_term::ANSIStrings`
/// and returns what that displays.
///
/// `ansi_term` displays nothing for no fragments.  Else it displays the prefix of the first
/// style and the first text; then for each further fragment what `Style::infix` displays
/// between the style before and its own, and its text; and at the end the reset sequence,
/// unless the last style sets nothing.  [`infix_of`] says what `Style::infix` displays.
#[verifier::external_body]
fn paint_all(pieces: &Vec<Piece<'_>>) -> (out: String)
    ensures
        out@ == painted_all(pieces@),
{
    let strings: Vec<::ansi_term::ANSIString<'_>> = pieces.iter().map(|(style, text)| {
        ::ansi_term::Style {
            foreground: style.foreground.map(raw_color),
            background: style.background.map(raw_color),
            is_bold: style.is_bold,
            is_italic: style.is_italic,
            is_underline: style.is_underline,
            is_strikethrough: style.is_strikethrough,
            ..::ansi_term::Style::default()
        }.paint(*text)
    }).collect();
    ::ansi_term::ANSIStrings(&strings).to_string()
}

/// The fragments for `ansi_term` that stand for styled strings: each with its style
/// converted, and with its own text.
pub open spec fn pieces_of<'a>(strings: Seq<StyledStr<'a>>) -> Seq<Piece<'a>> {
    strings.map_values(|s: StyledStr<'a>| (term_style_option(s.style), s.s))
}

/// Renders a styled string with `ansi_term`: returns the text between the control sequences
/// that switch its style on and off.
///
/// The text itself is not changed.  A string without a style, or with a style that sets
/// nothing, is rendered as its text alone.
pub fn render(s: &StyledStr<'_>) -> (out: String)
    ensures
        out@ == painted(term_style_option(s.style), s.s@),
        term_style_option(s.style).is_plain() ==> out@ == s.s@,
{
    let style = convert_style(s.style);
    let out = paint(&style, s.s);
    assert(style.is_plain() ==> out@ =~= s.s@);
    out
}

/// Renders multiple styled strings with `ansi_term`, in their order, with as few control
/// sequences as `ansi_term` needs for them.
///
/// No strings are rendered as the empty string.  Strings of which none has a style that sets
/// anything are rendered as their texts, one after the other.
pub fn render_iter(strings: &[StyledStr<'_>]) -> (out: String)
    ensures
        out@ == painted_all(pieces_of(strings@)),
        strings.len() == 0 ==> out@ == Seq::<char>::empty(),
        (forall|i: int|
            0 <= i < strings.len() ==> term_style_option((#[trigger] strings[i]).style).is_plain())
            ==> out@ == strings@.map_values(|s: StyledStr<'_>| s.s@).flatten(),
{
    let mut pieces: Vec<Piece<'_>> = Vec::new();
    let mut i: usize = 0;
    while i < strings.len()
        invariant
            i <= strings.len(),
            pieces@ == pieces_of(strings@.take(i as int)),
        decreases strings.len() - i,
    {
        let style = convert_style(strings[i].style);
        pieces.push((style, strings[i].s));
        i += 1;
        assert(pieces@ =~= pieces_of(strings@.take(i as int)));
    }
    proof {
        assert(strings@.take(i as int) =~= strings@);
        assert(pieces@.map_values(|piece: Piece<'_>| piece.1@) =~= strings@.map_values(
            |s: StyledStr<'_>| s.s@,
        ));
        if forall|i: int| 0 <= i < pieces.len() ==> (#[trigger] pieces[i]).0.is_plain() {
            lemma_painted_all_plain(pieces@);
        }
    }
    paint_all(&pieces)
}

/// Fragments whose styles all set nothing are displayed without any control sequence: as
/// their texts, one after the other.
pub proof fn lemma_painted_all_plain(pieces: Seq<Piece<'_>>)
    requires
        forall|i: int| 0 <= i < pieces.len() ==> (#[trigger] pieces[i]).0.is_plain(),
    ensures
        painted_all(pieces) == texts(pieces),
{
    if pieces.len() > 0 {
        lemma_painted_rest_plain(pieces, 1);
        let all = pieces.map_values(|piece: Piece<'_>| piece.1@);
        assert(all.drop_first() =~= pieces.skip(1).map_values(|piece: Piece<'_>| piece.1@));
        assert(painted_all(pieces) =~= pieces[0].1@ + painted_rest(pieces, 1));
    }
}

/// The same for the fragments from the index `from` on.
proof fn lemma_painted_rest_plain(pieces: Seq<Piece<'_>>, from: int)
    requires
        1 <= from <= pieces.len(),
        forall|i: int| 0 <= i < pieces.len() ==> (#[trigger] pieces[i]).0.is_plain(),
    ensures
        painted_rest(pieces, from) == texts(pieces.skip(from)),
    decreases pieces.len() - from,
{
    let rest = pieces.skip(from).map_values(|piece: Piece<'_>| piece.1@);
    if from < pieces.len() {
        lemma_painted_rest_plain(pieces, from + 1);
        assert(pieces[from - 1].0 == pieces[from].0);
        assert(rest.drop_first() =~= pieces.skip(from + 1).map_values(
            |piece: Piece<'_>| piece.1@,
        ));
        assert(rest.first() == pieces[from].1@);
        assert(painted_rest(pieces, from) =~= pieces[from].1@ + painted_rest(pieces, from + 1));
    } else {
        assert(rest =~= Seq::<Seq<char>>::empty());
    }
}

/// Rendering one string alone and rendering the sequence that holds only this string give
/// the same.
pub proof fn lemma_painted_all_single(piece: Piece<'_>)
    ensures
        painted_all(seq![piece]) == painted(piece.0, piece.1@),
{
    assert(painted_rest(seq![piece], 1) =~= Seq::<char>::empty());
    assert(painted_all(seq![piece]) =~= painted(piece.0, piece.1@));
}

/// Between two strings of the same style nothing is written.  After a string with a style, a
/// string whose style sets nothing comes after the reset sequence alone.  Where the second
/// style only adds to the first, what it adds is switched on, and nothing is reset.
pub proof fn lemma_infix_of(style: TermStyle, next: TermStyle)
    ensures
        infix_of(style, style) == Seq::<char>::empty(),
        next.is_plain() && !style.is_plain() ==> infix_of(style, next) == reset(),
        style.is_plain() ==> infix_of(style, next) == prefix_of(next),
        style != next && !takes_away(style, next) ==> !difference(style, next).is_plain()
            && infix_of(style, next) == prefix_of(difference(style, next)),
{
    if next.is_plain() && !style.is_plain() {
        assert(takes_away(style, next));
        assert(reset() + prefix_of(next) =~= reset());
    }
    if style.is_plain() && style != next {
        assert(difference(style, next) == next);
    }
}

/// The order of what is rendered: the code of the bold effect comes first, the code of the
/// foreground color comes last, the text follows unchanged, and the reset sequence ends the
/// output.  A bold text in dark red is rendered as `ESC [ 1 ; 3 1 m`, the text, and
/// `ESC [ 0 m`.
pub proof fn lemma_painted_order(style: TermStyle, text: Seq<char>)
    ensures
        !style.is_plain() ==> painted(style, text) == seq!['\x1b', '['] + codes(style).skip(1)
            + seq!['m'] + text + reset(),
        style.is_bold ==> codes(style).skip(1) == seq!['1'] + codes(
            TermStyle { is_bold: false, ..style },
        ),
        style.foreground is Some ==> codes(style) == codes(
            TermStyle { foreground: None, ..style },
        ) + seq![';'] + color_code('3', style.foreground.unwrap()),
        style == (TermStyle {
            foreground: Some(TermColor::Red),
            is_bold: true,
            ..TermStyle::plain()
        }) ==> painted(style, text) == seq!['\x1b', '[', '1', ';', '3', '1', 'm'] + text + seq![
            '\x1b',
            '[',
            '0',
            'm',
        ],
{
    let rest = codes(TermStyle { is_bold: false, ..style });
    if style.is_bold {
        assert(codes(style) =~= seq![';', '1'] + rest);
        assert(codes(style).skip(1) =~= seq!['1'] + rest);
    }
    if style.foreground is Some {
        assert(codes(style) =~= codes(TermStyle { foreground: None, ..style }) + seq![';']
            + color_code('3', style.foreground.unwrap()));
    }
    if !style.is_plain() {
        assert(painted(style, text) =~= seq!['\x1b', '['] + codes(style).skip(1) + seq!['m']
            + text + reset());
    }
    let bold_red = TermStyle {
        foreground: Some(TermColor::Red),
        is_bold: true,
        ..TermStyle::plain()
    };
    if style == bold_red {
        assert(codes(style) =~= seq![';', '1', ';', '3', '1']);
        assert(painted(style, text) =~= seq!['\x1b', '[', '1', ';', '3', '1', 'm'] + text + seq![
            '\x1b',
            '[',
            '0',
            'm',
        ]);
    }
}

/// A text that is bold and dark red, and has no other style, is rendered as the control
/// sequence with the code of the bold effect and then the code of the dark red foreground,
/// the text as it is, and the reset sequence: `ESC [ 1 ; 3 1 m`, the text, `ESC [ 0 m`.
pub proof fn lemma_painted_bold_dark_red(text: Seq<char>)
    ensures
        painted(
            term_style_option(
                Some(
                    Style {
                        fg: Some(Color::Ansi { color: AnsiColor::Red, mode: AnsiMode::Dark }),
                        bg: None,
                        effects: Effects::single(Effect::Bold),
                    },
                ),
            ),
            text,
        ) == seq!['\x1b', '[', '1', ';', '3', '1', 'm'] + text + seq!['\x1b', '[', '0', 'm'],
{
    let style = TermStyle {
        foreground: Some(TermColor::Red),
        is_bold: true,
        ..TermStyle::plain()
    };
    lemma_painted_order(style, text);
}

/// No two colors are converted to the same color of `ansi_term`, and the components of an
/// RGB color are kept as they are.
pub proof fn lemma_term_color_injective(a: Color, b: Color)
    ensures
        term_color(a) == term_color(b) ==> a == b,
        a matches Color::Rgb { r, g, b } ==> term_color(a) == TermColor::Rgb(r, g, b),
{
}

/// A style is converted to the style of `ansi_term` that sets nothing exactly if it sets
/// nothing itself.
pub proof fn lemma_term_style_plain(style: Style)
    ensures
        term_style(style).is_plain() <==> style == Style::plain(),
{
}

} // verus!
