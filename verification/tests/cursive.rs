use cursive::{theme, utils::markup};
use text_style::cursive::{BaseColor, ColorStyle, Markup, ThemeColor, ThemeEffects, ThemeStyle};
use text_style::{AnsiColor, Color, Effect, StyledStr, StyledString, EFFECTS};

fn to_base_color(color: BaseColor) -> theme::BaseColor {
    match color {
        BaseColor::Black => theme::BaseColor::Black,
        BaseColor::Red => theme::BaseColor::Red,
        BaseColor::Green => theme::BaseColor::Green,
        BaseColor::Yellow => theme::BaseColor::Yellow,
        BaseColor::Blue => theme::BaseColor::Blue,
        BaseColor::Magenta => theme::BaseColor::Magenta,
        BaseColor::Cyan => theme::BaseColor::Cyan,
        BaseColor::White => theme::BaseColor::White,
    }
}

fn to_color(color: ThemeColor) -> theme::Color {
    match color {
        ThemeColor::TerminalDefault => theme::Color::TerminalDefault,
        ThemeColor::Dark(base) => theme::Color::Dark(to_base_color(base)),
        ThemeColor::Light(base) => theme::Color::Light(to_base_color(base)),
        ThemeColor::Rgb(r, g, b) => theme::Color::Rgb(r, g, b),
        ThemeColor::RgbLowRes(r, g, b) => theme::Color::RgbLowRes(r, g, b),
    }
}

fn to_color_style(colors: ColorStyle) -> theme::ColorStyle {
    theme::ColorStyle::new(to_color(colors.front), to_color(colors.back))
}

fn to_style(style: ThemeStyle) -> theme::Style {
    let ThemeEffects { simple, reverse, bold, italic, strikethrough, underline } = style.effects;
    let flags = [
        (simple, theme::Effect::Simple),
        (reverse, theme::Effect::Reverse),
        (bold, theme::Effect::Bold),
        (italic, theme::Effect::Italic),
        (strikethrough, theme::Effect::Strikethrough),
        (underline, theme::Effect::Underline),
    ];
    let mut result = theme::Style::none();
    for (set, effect) in flags {
        if set {
            result.effects.insert(effect);
        }
    }
    result.color = style.color.map(to_color_style);
    result
}

fn styled_string<'a>(s: impl Into<StyledStr<'a>>) -> markup::StyledString {
    let text = Markup::from(s.into());
    markup::StyledString::styled(text.source, to_style(text.style))
}

#[test]
fn bold_cursive() {
    let input = StyledStr::plain("test").bold();
    let output = markup::StyledString::styled("test", cursive::theme::Effect::Bold);
    assert_eq!(output, styled_string(input));
}

#[test]
fn italic_cursive() {
    let input = StyledStr::plain("test").italic();
    let output = markup::StyledString::styled("test", cursive::theme::Effect::Italic);
    assert_eq!(output, styled_string(input));
}

#[test]
fn underline_cursive() {
    let input = StyledStr::plain("test").underline();
    let output = markup::StyledString::styled("test", cursive::theme::Effect::Underline);
    assert_eq!(output, styled_string(input));
}

#[test]
fn strikethrough_cursive() {
    let input = StyledStr::plain("test").strikethrough();
    let output = markup::StyledString::styled("test", cursive::theme::Effect::Strikethrough);
    assert_eq!(output, styled_string(input));
}

#[test]
fn fg_cursive() {
    let input = StyledStr::plain("test").with(AnsiColor::Red.dark());
    let output = markup::StyledString::styled(
        "test",
        theme::ColorStyle::new(
            theme::Color::Dark(theme::BaseColor::Red),
            theme::Color::TerminalDefault,
        ),
    );
    assert_eq!(output, styled_string(input));
}

#[test]
fn bg_cursive() {
    let input = StyledStr::plain("test").on(AnsiColor::Red.dark());
    let output = markup::StyledString::styled(
        "test",
        theme::ColorStyle::new(
            theme::Color::TerminalDefault,
            theme::Color::Dark(theme::BaseColor::Red),
        ),
    );
    assert_eq!(output, styled_string(input));
}

#[test]
fn render_cursive() {
    let plain = markup::StyledString::plain("test");
    assert_eq!(plain, styled_string(StyledStr::plain("test")));
    assert_eq!(plain, styled_string(&StyledString::plain("test".to_owned())));
    assert_eq!(plain, styled_string(StyledStr::styled("test", Default::default())));

    let effects = [
        theme::Effect::Bold,
        theme::Effect::Italic,
        theme::Effect::Underline,
        theme::Effect::Strikethrough,
    ];
    for (effect, expected) in EFFECTS.iter().zip(effects) {
        let output = markup::StyledString::styled("test", expected);
        assert_eq!(output, styled_string(StyledStr::plain("test").effect(*effect)));
    }

    let both = theme::Style::merge(&[theme::Effect::Bold.into(), theme::Effect::Underline.into()]);
    let output = markup::StyledString::styled("test", both);
    assert_eq!(output, styled_string(StyledStr::plain("test").underline().bold()));

    let output = markup::StyledString::styled(
        "test",
        theme::ColorStyle::new(
            theme::Color::Light(theme::BaseColor::Magenta),
            theme::Color::Rgb(1, 2, 3),
        ),
    );
    let input = StyledStr::plain("test")
        .with(AnsiColor::Magenta.light())
        .on(Color::Rgb { r: 1, g: 2, b: 3 });
    assert_eq!(output, styled_string(input));
    assert_eq!(Markup::from(StyledStr::plain("a").effect(Effect::Bold)).source, "a");
}
