use crossterm::style;
use crossterm::ExecutableCommand;
use text_style::crossterm::{Attributes, ContentStyle, StyledContent, TermColor};
use text_style::{AnsiColor, Color, StyledStr};

fn to_color(color: TermColor) -> style::Color {
    match color {
        TermColor::Reset => style::Color::Reset,
        TermColor::Black => style::Color::Black,
        TermColor::DarkGrey => style::Color::DarkGrey,
        TermColor::Red => style::Color::Red,
        TermColor::DarkRed => style::Color::DarkRed,
        TermColor::Green => style::Color::Green,
        TermColor::DarkGreen => style::Color::DarkGreen,
        TermColor::Yellow => style::Color::Yellow,
        TermColor::DarkYellow => style::Color::DarkYellow,
        TermColor::Blue => style::Color::Blue,
        TermColor::DarkBlue => style::Color::DarkBlue,
        TermColor::Magenta => style::Color::Magenta,
        TermColor::DarkMagenta => style::Color::DarkMagenta,
        TermColor::Cyan => style::Color::Cyan,
        TermColor::DarkCyan => style::Color::DarkCyan,
        TermColor::White => style::Color::White,
        TermColor::Grey => style::Color::Grey,
        TermColor::Rgb { r, g, b } => style::Color::Rgb { r, g, b },
        TermColor::AnsiValue(n) => style::Color::AnsiValue(n),
    }
}

fn to_attributes(attributes: Attributes) -> style::Attributes {
    let flags = [
        (attributes.bold, style::Attribute::Bold),
        (attributes.italic, style::Attribute::Italic),
        (attributes.underlined, style::Attribute::Underlined),
        (attributes.crossed_out, style::Attribute::CrossedOut),
    ];
    let mut set = style::Attributes::default();
    for (is_set, attribute) in flags {
        if is_set {
            set.set(attribute);
        }
    }
    set
}

fn to_content_style(content_style: ContentStyle) -> style::ContentStyle {
    style::ContentStyle {
        foreground_color: content_style.foreground_color.map(to_color),
        background_color: content_style.background_color.map(to_color),
        attributes: to_attributes(content_style.attributes),
    }
}

fn styled_content<'a>(s: impl Into<StyledStr<'a>>) -> style::StyledContent<&'a str> {
    let content = StyledContent::from(s.into());
    style::StyledContent::new(to_content_style(content.style), content.content)
}

fn render<'a>(s: impl Into<StyledStr<'a>>) -> String {
    let mut v = Vec::new();
    v.execute(style::PrintStyledContent(styled_content(s))).expect("Failed to render string");
    String::from_utf8(v).expect("Output is invalid UTF-8")
}

fn assert_output(expected: &[&str], actual: &str) {
    if !expected.contains(&actual) {
        let mut msg = "Unexpected output:\n  expected one of:\n".to_owned();
        for s in expected {
            msg.push_str(&format!("    {:?}\n", s));
        }
        msg.push_str("  found:\n");
        msg.push_str(&format!("    {:?}", actual));
        panic!("{}", msg);
    }
}

#[test]
fn bold_crossterm() {
    let output = render(&StyledStr::plain("test").bold());
    assert_output(&["\x1b[1mtest\x1b[0m", "\x1b[1mtest\x1b[m"], &output);
}

#[test]
fn italic_crossterm() {
    let output = render(&StyledStr::plain("test").italic());
    assert_output(&["\x1b[3mtest\x1b[0m", "\x1b[3mtest\x1b[m"], &output);
}

#[test]
fn underline_crossterm() {
    let output = render(&StyledStr::plain("test").underline());
    assert_output(&["\x1b[4mtest\x1b[0m", "\x1b[4mtest\x1b[m"], &output);
}

#[test]
fn strikethrough_crossterm() {
    let output = render(&StyledStr::plain("test").strikethrough());
    assert_output(&["\x1b[9mtest\x1b[0m", "\x1b[9mtest\x1b[m"], &output);
}

#[test]
fn fg_crossterm() {
    let output = render(&StyledStr::plain("test").with(AnsiColor::Red.dark()));
    assert_output(
        &[
            "\x1b[31mtest\x1b[39m",
            "\x1b[31mtest\x1b[0m",
            "\x1b[31mtest\x1b[m",
            "\x1b[38;5;1mtest\x1b[39m",
            "\x1b[38;5;1mtest\x1b[0m",
            "\x1b[38;5;1mtest\x1b[m",
        ],
        &output,
    );
}

#[test]
fn bg_crossterm() {
    let output = render(&StyledStr::plain("test").on(AnsiColor::Red.dark()));
    assert_output(
        &[
            "\x1b[41mtest\x1b[49m",
            "\x1b[41mtest\x1b[0m",
            "\x1b[41mtest\x1b[m",
            "\x1b[48;5;1mtest\x1b[49m",
            "\x1b[48;5;1mtest\x1b[0m",
            "\x1b[48;5;1mtest\x1b[m",
        ],
        &output,
    );
}

#[test]
fn plain_crossterm() {
    assert_eq!(render(StyledStr::plain("test")), "test");
}

#[test]
fn ansi_colors_have_their_palette_numbers() {
    let colors = [
        AnsiColor::Black,
        AnsiColor::Red,
        AnsiColor::Green,
        AnsiColor::Yellow,
        AnsiColor::Blue,
        AnsiColor::Magenta,
        AnsiColor::Cyan,
        AnsiColor::White,
    ];
    for (i, color) in colors.iter().enumerate() {
        let dark = render(StyledStr::plain("x").with(color.dark()));
        assert_eq!(dark, format!("\x1b[38;5;{}mx\x1b[0m", i));
        let light = render(StyledStr::plain("x").on(color.light()));
        assert_eq!(light, format!("\x1b[48;5;{}mx\x1b[0m", i + 8));
    }
    let rgb = render(StyledStr::plain("x").with(Color::Rgb { r: 1, g: 2, b: 3 }));
    assert_eq!(rgb, "\x1b[38;2;1;2;3mx\x1b[0m");
}
