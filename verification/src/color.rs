//! Colors: the eight ANSI base colors in two modes, and 24-bit RGB colors.

use vstd::prelude::*;

verus! {

/// An ANSI base color.
///
/// This enum contains the basic eight ANSI colors.  These colors are available in two modes:
/// [`AnsiMode::Dark`] and [`AnsiMode::Light`].  Combinations of an ANSI color and a mode are
/// stored in the [`Color`] enum.
#[derive(Clone, Copy, Debug, PartialEq, Eq, Structural)]
pub enum AnsiColor {
    /// Black (ANSI color #0 (dark) or #8 (light)).
    Black,
    /// Red (ANSI color #1 (dark) or #9 (light)).
    Red,
    /// Green (ANSI color #2 (dark) or #10 (light)).
    Green,
    /// Yellow (ANSI color #3 (dark) or #11 (light)).
    Yellow,
    /// Blue (ANSI color #4 (dark) or #12 (light)).
    Blue,
    /// Magenta (ANSI color #5 (dark) or #13 (light)).
    Magenta,
    /// Cyan (ANSI color #6 (dark) or #14 (light)).
    Cyan,
    /// White (ANSI color #7 (dark) or #15 (light)).
    White,
}

/// An ANSI color mode.
///
/// The ANSI base colors, stored in the [`AnsiColor`] enum, are available in two modes:
/// [`AnsiMode::Dark`] and [`AnsiMode::Light`].
#[derive(Clone, Copy, Debug, PartialEq, Eq, Structural)]
pub enum AnsiMode {
    /// The dark variant of an ANSI color.
    Dark,
    /// The light variant of an ANSI color.
    Light,
}

/// A color.
///
/// This enum stores colors, either as an ANSI color (see [`AnsiColor`] and [`AnsiMode`]) or as
/// an RGB color.  The two forms are never turned into each other silently: the only way from
/// an ANSI color to RGB components is the palette of [`ansi_to_rgb`], and there is no way back.
#[derive(Clone, Copy, Debug, PartialEq, Eq, Structural)]
pub enum Color {
    /// An ANSI color.
    Ansi {
        /// The ANSI base color.
        color: AnsiColor,
        /// The variant of the ANSI base color (light or dark).
        mode: AnsiMode,
    },
    /// An RGB color.
    Rgb {
        /// The red component.
        r: u8,
        /// The green component.
        g: u8,
        /// The blue component.
        b: u8,
    },
}

impl AnsiColor {
    /// The number of this color among the eight base colors, from 0 (black) to 7 (white).
    ///
    /// Bit 0 of the number stands for red, bit 1 for green and bit 2 for blue.
    pub open spec fn index(self) -> int {
        match self {
            AnsiColor::Black => 0,
            AnsiColor::Red => 1,
            AnsiColor::Green => 2,
            AnsiColor::Yellow => 3,
            AnsiColor::Blue => 4,
            AnsiColor::Magenta => 5,
            AnsiColor::Cyan => 6,
            AnsiColor::White => 7,
        }
    }

    /// Whether this color has a red, green and blue part, in this order.
    pub open spec fn parts(self) -> (bool, bool, bool) {
        (self.index() % 2 == 1, (self.index() / 2) % 2 == 1, self.index() / 4 == 1)
    }

    /// Returns the dark variant of this ANSI color.
    pub fn dark(self) -> (res: Color)
        ensures
            res == (Color::Ansi { color: self, mode: AnsiMode::Dark }),
    {
        Color::Ansi { color: self, mode: AnsiMode::Dark }
    }

    /// Returns the light variant of this ANSI color.
    pub fn light(self) -> (res: Color)
        ensures
            res == (Color::Ansi { color: self, mode: AnsiMode::Light }),
    {
        Color::Ansi { color: self, mode: AnsiMode::Light }
    }
}

/// The RGB components that stand for an ANSI color: the sixteen entries of the conventional
/// VGA text mode palette.
pub open spec fn palette(color: AnsiColor, mode: AnsiMode) -> (u8, u8, u8) {
    match (mode, color) {
        (AnsiMode::Dark, AnsiColor::Black) => (0, 0, 0),
        (AnsiMode::Dark, AnsiColor::Red) => (170, 0, 0),
        (AnsiMode::Dark, AnsiColor::Green) => (0, 170, 0),
        (AnsiMode::Dark, AnsiColor::Yellow) => (170, 85, 0),
        (AnsiMode::Dark, AnsiColor::Blue) => (0, 0, 170),
        (AnsiMode::Dark, AnsiColor::Magenta) => (170, 0, 170),
        (AnsiMode::Dark, AnsiColor::Cyan) => (0, 170, 170),
        (AnsiMode::Dark, AnsiColor::White) => (170, 170, 170),
        (AnsiMode::Light, AnsiColor::Black) => (85, 85, 85),
        (AnsiMode::Light, AnsiColor::Red) => (255, 85, 85),
        (AnsiMode::Light, AnsiColor::Green) => (85, 255, 85),
        (AnsiMode::Light, AnsiColor::Yellow) => (255, 255, 85),
        (AnsiMode::Light, AnsiColor::Blue) => (85, 85, 255),
        (AnsiMode::Light, AnsiColor::Magenta) => (255, 85, 255),
        (AnsiMode::Light, AnsiColor::Cyan) => (85, 255, 255),
        (AnsiMode::Light, AnsiColor::White) => (255, 255, 255),
    }
}

/// Approximates an ANSI color by RGB components.
///
/// This is a fixed table, not a computed transform.  Adapters for targets that have no
/// symbolic ANSI colors of their own go through it.
pub fn ansi_to_rgb(color: AnsiColor, mode: AnsiMode) -> (res: (u8, u8, u8))
    ensures
        res == palette(color, mode),
{
    match mode {
        AnsiMode::Dark => match color {
            AnsiColor::Black => (0, 0, 0),
            AnsiColor::Red => (170, 0, 0),
            AnsiColor::Green => (0, 170, 0),
            AnsiColor::Yellow => (170, 85, 0),
            AnsiColor::Blue => (0, 0, 170),
            AnsiColor::Magenta => (170, 0, 170),
            AnsiColor::Cyan => (0, 170, 170),
            AnsiColor::White => (170, 170, 170),
        },
        AnsiMode::Light => match color {
            AnsiColor::Black => (85, 85, 85),
            AnsiColor::Red => (255, 85, 85),
            AnsiColor::Green => (85, 255, 85),
            AnsiColor::Yellow => (255, 255, 85),
            AnsiColor::Blue => (85, 85, 255),
            AnsiColor::Magenta => (255, 85, 255),
            AnsiColor::Cyan => (85, 255, 255),
            AnsiColor::White => (255, 255, 255),
        },
    }
}

impl Color {
    /// The RGB components of this color: its own for an RGB color, those of the palette for
    /// an ANSI color.
    pub open spec fn rgb(self) -> (u8, u8, u8) {
        match self {
            Color::Ansi { color, mode } => palette(color, mode),
            Color::Rgb { r, g, b } => (r, g, b),
        }
    }

    /// Returns the RGB components of this color, approximating an ANSI color by the palette
    /// of [`ansi_to_rgb`].
    pub fn to_rgb(self) -> (res: (u8, u8, u8))
        ensures
            res == self.rgb(),
            self matches Color::Rgb { r, g, b } ==> res == (r, g, b),
    {
        match self {
            Color::Ansi { color, mode } => ansi_to_rgb(color, mode),
            Color::Rgb { r, g, b } => (r, g, b),
        }
    }
}

/// The palette follows one rule with one exception.  In the light mode a part of the color
/// that is present has the value 255 and one that is absent 85; in the dark mode the values
/// are 170 and 0.  The exception is dark yellow, whose green part is 85: it is the brown of
/// the CGA palette.
pub proof fn lemma_palette_rule(color: AnsiColor, mode: AnsiMode)
    ensures
        ({
            let (full, low): (u8, u8) = match mode {
                AnsiMode::Dark => (170, 0),
                AnsiMode::Light => (255, 85),
            };
            let (red, green, blue) = color.parts();
            let (r, g, b) = palette(color, mode);
            &&& r == if red { full } else { low }
            &&& b == if blue { full } else { low }
            &&& if mode == AnsiMode::Dark && color == AnsiColor::Yellow {
                g == 85
            } else {
                g == if green { full } else { low }
            }
        }),
{
}

} // verus!
