//! Types and conversions for styled text.
//!
//! # Overview
//!
//! The central types of this crate are [`StyledStr`] and [`StyledString`]: borrowed and owned
//! strings that are annotated with an optional style, [`Style`].  A style consists of a
//! foreground and a background color ([`Color`]) and of text effects ([`Effects`]: bold,
//! italic, underline or strikethrough).  Two styles are combined with [`Style::and`]: the
//! colors of the second style win, the effects of both are united.
//!
//! Most crates that produce or consume styled text use very similar types.  The modules of
//! this crate describe the style types of some of them by plain values, and convert to or
//! from these values:
//!
//! - [`ansi_term`]: convert to the styles of `ansi_term`, and render with it
//! - [`bevy`]: convert to the text styles of `bevy`
//! - [`colored`]: convert to and from the colored strings of `colored`
//! - [`crossterm`]: convert to the styled content of `crossterm`
//! - [`cursive`]: convert to the styled strings of `cursive`
//! - [`genpdf`]: convert to the styled strings of `genpdf`
//! - [`syntect`]: convert from the styles of `syntect`
//!
//! A target that has symbolic constants for the ANSI colors gets an ANSI color as the
//! constant that stands for it.  A target that knows only RGB colors gets it as the RGB
//! components of a fixed palette, [`ansi_to_rgb`].  No conversion can fail.
//!
//! # Usage
//!
//! ```
//! use text_style::{AnsiColor, StyledStr};
//!
//! let s = StyledStr::plain("text")
//!     .with(AnsiColor::Red.light())
//!     .on(AnsiColor::Green.dark())
//!     .bold();
//! let rendered = text_style::ansi_term::render(&s);
//! assert_eq!(rendered, "\x1b[1;42;38;5;9mtext\x1b[0m");
//! ```
//!
//! # Verification
//!
//! This crate is verified with Verus.  Each function states in its header what it returns,
//! over the spec functions that stand beside it, and the laws that relate several functions
//! are proved as `proof` functions.  The functions that call into `ansi_term` are not
//! verified: their contracts are trusted, and their documentation says what they claim.

pub mod ansi_term;
pub mod bevy;
pub mod color;
pub mod colored;
pub mod crossterm;
pub mod cursive;
pub mod effects;
pub mod genpdf;
pub mod style;
pub mod styled;
pub mod syntect;

pub use color::{ansi_to_rgb, AnsiColor, AnsiMode, Color};
pub use effects::{Effect, Effects, EffectsIter, EFFECTS};
pub use style::Style;
pub use styled::{StyledStr, StyledString, StyledText};
