use colored::{ColoredString, Colorize, Styles};
use text_style::colored::{ColoredText, TextColor, TextStyles};
use text_style::{AnsiColor, Effect, Style, StyledStr, StyledString};

fn to_color(color: TextColor) -> colored::Color {
    match color {
        TextColor::Black => colored::Color::Black,
        TextColor::Red => colored::Color::Red,
        TextColor::Green => colored::Color::Green,
        TextColor::Yellow => colored::Color::Yellow,
        TextColor::Blue => colored::Color::Blue,
        TextColor::Magenta => colored::Color::Magenta,
        TextColor::Cyan => colored::Color::Cyan,
        TextColor::White => colored::Color::White,
        TextColor::BrightBlack => colored::Color::BrightBlack,
        TextColor::BrightRed => colored::Color::BrightRed,
        TextColor::BrightGreen => colored::Color::BrightGreen,
        TextColor::BrightYellow => colored::Color::BrightYellow,
        TextColor::BrightBlue => colored::Color::BrightBlue,
        TextColor::BrightMagenta => colored::Color::BrightMagenta,
        TextColor::BrightCyan => colored::Color::BrightCyan,
        TextColor::BrightWhite => colored::Color::BrightWhite,
        TextColor::TrueColor { r, g, b } => colored::Color::TrueColor { r, g, b },
    }
}

fn from_color(color: colored::Color) -> TextColor {
    match color {
        colored::Color::Black => TextColor::Black,
        colored::Color::Red => TextColor::Red,
        colored::Color::Green => TextColor::Green,
        colored::Color::Yellow => TextColor::Yellow,
        colored::Color::Blue => TextColor::Blue,
        colored::Color::Magenta => TextColor::Magenta,
        colored::Color::Cyan => TextColor::Cyan,
        colored::Color::White => TextColor::White,
        colored::Color::BrightBlack => TextColor::BrightBlack,
        colored::Color::BrightRed => TextColor::BrightRed,
        colored::Color::BrightGreen => TextColor::BrightGreen,
        colored::Color::BrightYellow => TextColor::BrightYellow,
        colored::Color::BrightBlue => TextColor::BrightBlue,
        colored::Color::BrightMagenta => TextColor::BrightMagenta,
        colored::Color::BrightCyan => TextColor::BrightCyan,
        colored::Color::BrightWhite => TextColor::BrightWhite,
        colored::Color::TrueColor { r, g, b } => TextColor::TrueColor { r, g, b },
    }
}

fn to_colored_string(text: ColoredText) -> ColoredString {
    let flags = [
        (text.style.bold, Styles::Bold),
        (text.style.dimmed, Styles::Dimmed),
        (text.style.underline, Styles::Underline),
        (text.style.reversed, Styles::Reversed),
        (text.style.italic, Styles::Italic),
        (text.style.blink, Styles::Blink),
        (text.style.hidden, Styles::Hidden),
        (text.style.strikethrough, Styles::Strikethrough),
    ];
    let mut string = ColoredString::from(text.input);
    string.fgcolor = text.fgcolor.map(to_color);
    string.bgcolor = text.bgcolor.map(to_color);
    for (set, flag) in flags {
        if set {
            string.style.add(flag);
        }
    }
    string
}

fn from_colored_string(string: ColoredString) -> ColoredText {
    ColoredText {
        fgcolor: string.fgcolor.map(from_color),
        bgcolor: string.bgcolor.map(from_color),
        style: TextStyles {
            bold: string.style.contains(Styles::Bold),
            dimmed: string.style.contains(Styles::Dimmed),
            underline: string.style.contains(Styles::Underline),
            reversed: string.style.contains(Styles::Reversed),
            italic: string.style.contains(Styles::Italic),
            blink: string.style.contains(Styles::Blink),
            hidden: string.style.contains(Styles::Hidden),
            strikethrough: string.style.contains(Styles::Strikethrough),
        },
        input: string.input,
    }
}

fn render<'a>(s: impl Into<StyledStr<'a>>) -> String {
    colored::control::set_override(true);
    to_colored_string(ColoredText::from(s.into())).to_string()
}

#[test]
fn effects_colored() {
    assert_eq!(render(StyledStr::plain("test").bold()), "\x1b[1mtest\x1b[0m");
    assert_eq!(render(StyledStr::plain("test").italic()), "\x1b[3mtest\x1b[0m");
    assert_eq!(render(StyledStr::plain("test").underline()), "\x1b[4mtest\x1b[0m");
    assert_eq!(render(StyledStr::plain("test").strikethrough()), "\x1b[9mtest\x1b[0m");
}

#[test]
fn colors_colored() {
    let colors = [
        AnsiColor::Black,
        AnsiColor::Red,
        AnsiColor::Green,
        AnsiColor::Yellow,
        AnsiColor::Blue,
        AnsiColor::Magenta,
        AnsiColor::Cyan,
        AnsiColor::White,
    ];
    for (i, color) in colors.iter().enumerate() {
        let dark = render(StyledStr::plain("test").with(color.dark()));
        assert_eq!(dark, format!("\x1b[{}mtest\x1b[0m", 30 + i));
        let light = render(StyledStr::plain("test").with(color.light()));
        assert_eq!(light, format!("\x1b[{}mtest\x1b[0m", 90 + i));
        let behind = render(StyledStr::plain("test").on(color.dark()));
        assert_eq!(behind, format!("\x1b[{}mtest\x1b[0m", 40 + i));
    }
}

#[test]
fn plain_colored() {
    assert_eq!(render(StyledStr::plain("test")), "test");
}

#[test]
fn string_of_colored_and_back() {
    let string = "test".red().on_bright_blue().bold().dimmed();
    let styled = StyledString::from(from_colored_string(string.clone()));
    assert_eq!(
        styled,
        StyledString::styled(
            "test".to_owned(),
            Style::fg(AnsiColor::Red.dark())
                .and(Style::bg(AnsiColor::Blue.light()))
                .and(Style::effect(Effect::Bold)),
        )
    );
    let back = to_colored_string(ColoredText::from(styled));
    assert_eq!(back, "test".red().on_bright_blue().bold());
}

#[test]
fn background_of_an_owned_string_colored() {
    let owned = StyledString::plain("test".to_owned()).on(AnsiColor::Green.dark());
    assert_eq!(to_colored_string(ColoredText::from(owned)), "test".on_green());
}
