use text_style::ansi_term::{convert_style, get_dark_color, get_light_color, TermColor, TermStyle};
use text_style::{AnsiColor, Color, Effect, Effects, Style, StyledStr, StyledString};

fn assert_output(expected: &[&str], actual: &str) {
    if !expected.contains(&actual) {
        let mut msg = "Unexpected output:\n  expected one of:\n".to_owned();
        for s in expected {
            msg.push_str(&format!("    {:?}\n", s));
        }
        msg.push_str("  found:\n");
        msg.push_str(&format!("    {:?}", actual));
        panic!("{}", msg);
    }
}

fn bold_input() -> StyledStr<'static> {
    StyledStr::plain("test").bold()
}

fn italic_input() -> StyledStr<'static> {
    StyledStr::plain("test").italic()
}

fn underline_input() -> StyledStr<'static> {
    StyledStr::plain("test").underline()
}

fn strikethrough_input() -> StyledStr<'static> {
    StyledStr::plain("test").strikethrough()
}

fn fg_input() -> StyledStr<'static> {
    StyledStr::plain("test").with(AnsiColor::Red.dark())
}

fn bg_input() -> StyledStr<'static> {
    StyledStr::plain("test").on(AnsiColor::Red.dark())
}

#[test]
fn bold_ansi_term() {
    let output = text_style::ansi_term::render(&bold_input());
    assert_output(&["\x1b[1mtest\x1b[0m", "\x1b[1mtest\x1b[m"], &output);
}

#[test]
fn italic_ansi_term() {
    let output = text_style::ansi_term::render(&italic_input());
    assert_output(&["\x1b[3mtest\x1b[0m", "\x1b[3mtest\x1b[m"], &output);
}

#[test]
fn underline_ansi_term() {
    let output = text_style::ansi_term::render(&underline_input());
    assert_output(&["\x1b[4mtest\x1b[0m", "\x1b[4mtest\x1b[m"], &output);
}

#[test]
fn strikethrough_ansi_term() {
    let output = text_style::ansi_term::render(&strikethrough_input());
    assert_output(&["\x1b[9mtest\x1b[0m", "\x1b[9mtest\x1b[m"], &output);
}

#[test]
fn fg_ansi_term() {
    let output = text_style::ansi_term::render(&fg_input());
    assert_output(
        &[
            "\x1b[31mtest\x1b[39m",
            "\x1b[31mtest\x1b[0m",
            "\x1b[31mtest\x1b[m",
            "\x1b[38;5;1mtest\x1b[39m",
            "\x1b[38;5;1mtest\x1b[0m",
            "\x1b[38;5;1mtest\x1b[m",
        ],
        &output,
    );
}

#[test]
fn bg_ansi_term() {
    let output = text_style::ansi_term::render(&bg_input());
    assert_output(
        &[
            "\x1b[41mtest\x1b[49m",
            "\x1b[41mtest\x1b[0m",
            "\x1b[41mtest\x1b[m",
            "\x1b[48;5;1mtest\x1b[49m",
            "\x1b[48;5;1mtest\x1b[0m",
            "\x1b[48;5;1mtest\x1b[m",
        ],
        &output,
    );
}

#[test]
fn bold_dark_red_through_ansi_term() {
    let input = StyledStr::plain("test").with(AnsiColor::Red.dark()).bold();
    let output = text_style::ansi_term::render(&input);
    assert_eq!(output, "\x1b[1;31mtest\x1b[0m");
    let bold = output.find("1").unwrap();
    let red = output.find("31").unwrap();
    let text = output.find("test").unwrap();
    let reset = output.find("\x1b[0m").unwrap();
    assert!(bold < red && red < text && text < reset);
}

#[test]
fn render_keeps_plain_text_as_it_is() {
    assert_eq!(text_style::ansi_term::render(&StyledStr::plain("test")), "test");
    assert_eq!(text_style::ansi_term::render(&StyledStr::plain("")), "");
    assert_eq!(
        text_style::ansi_term::render(&StyledStr::styled(" a\tb\n", Style::default())),
        " a\tb\n"
    );
}

#[test]
fn render_keeps_the_text_between_the_codes() {
    let text = "  MiXed \u{e9}\u{4e16} case\x1b[0m  ";
    let output = text_style::ansi_term::render(&StyledStr::plain(text).underline());
    assert_eq!(output, format!("\x1b[4m{}\x1b[0m", text));
}

#[test]
fn render_light_and_rgb_colors() {
    let light = StyledStr::plain("x").with(AnsiColor::Red.light());
    assert_eq!(text_style::ansi_term::render(&light), "\x1b[38;5;9mx\x1b[0m");
    let rgb = StyledStr::plain("x")
        .with(Color::Rgb { r: 70, g: 130, b: 180 })
        .on(Color::Rgb { r: 5, g: 10, b: 15 });
    assert_eq!(
        text_style::ansi_term::render(&rgb),
        "\x1b[48;2;5;10;15;38;2;70;130;180mx\x1b[0m"
    );
}

#[test]
fn render_an_owned_string() {
    let owned = StyledString::plain("test".to_owned()).italic();
    assert_eq!(text_style::ansi_term::render(&StyledStr::from(&owned)), "\x1b[3mtest\x1b[0m");
}

#[test]
fn render_iter_of_nothing_is_empty() {
    assert_eq!(text_style::ansi_term::render_iter(&[]), "");
}

#[test]
fn render_iter_of_plain_strings_joins_them() {
    let v = vec![StyledStr::plain("one"), StyledStr::plain("two")];
    assert_eq!(text_style::ansi_term::render_iter(&v), "onetwo");
}

#[test]
fn render_iter_keeps_the_order() {
    let v = vec![
        StyledStr::plain("test").bold(),
        StyledStr::plain(" "),
        StyledStr::plain("test2").italic(),
    ];
    assert_eq!(
        text_style::ansi_term::render_iter(&v),
        "\x1b[1mtest\x1b[0m \x1b[3mtest2\x1b[0m"
    );
}

#[test]
fn render_iter_writes_only_the_change_of_style() {
    let v = vec![
        StyledStr::plain("a").with(AnsiColor::Green.dark()),
        StyledStr::plain("b").with(AnsiColor::Green.dark()).bold(),
        StyledStr::plain("c").with(AnsiColor::Green.dark()).bold(),
    ];
    assert_eq!(text_style::ansi_term::render_iter(&v), "\x1b[32ma\x1b[1mbc\x1b[0m");
}

#[test]
fn render_iter_of_one_string_is_render() {
    let s = StyledStr::plain("test").on(AnsiColor::Blue.light()).strikethrough();
    assert_eq!(
        text_style::ansi_term::render_iter(&[s.clone()]),
        text_style::ansi_term::render(&s)
    );
}

#[test]
fn ansi_term_colors() {
    assert_eq!(get_dark_color(AnsiColor::Black), TermColor::Black);
    assert_eq!(get_dark_color(AnsiColor::Magenta), TermColor::Purple);
    assert_eq!(get_dark_color(AnsiColor::White), TermColor::White);
    assert_eq!(get_light_color(AnsiColor::Black), TermColor::Fixed(8));
    assert_eq!(get_light_color(AnsiColor::Magenta), TermColor::Fixed(13));
    assert_eq!(get_light_color(AnsiColor::White), TermColor::Fixed(15));
    assert_eq!(TermColor::from(AnsiColor::Red.dark()), TermColor::Red);
    assert_eq!(TermColor::from(AnsiColor::Red.light()), TermColor::Fixed(9));
    assert_eq!(TermColor::from(Color::Rgb { r: 1, g: 2, b: 3 }), TermColor::Rgb(1, 2, 3));
}

#[test]
fn ansi_term_style() {
    let style = Style::new(
        Some(AnsiColor::Red.dark()),
        Some(Color::Rgb { r: 1, g: 2, b: 3 }),
        Effects::only(Effect::Strikethrough),
    );
    let expected = TermStyle {
        foreground: Some(TermColor::Red),
        background: Some(TermColor::Rgb(1, 2, 3)),
        is_bold: false,
        is_italic: false,
        is_underline: false,
        is_strikethrough: true,
    };
    assert_eq!(TermStyle::from(style), expected);
    assert_eq!(convert_style(Some(style)), expected);
    assert_eq!(convert_style(None), TermStyle::new());
    assert_eq!(convert_style(Some(Style::default())), TermStyle::new());
}

#[test]
fn render_the_example_of_the_documentation() {
    let s = StyledStr::plain("text")
        .with(AnsiColor::Red.light())
        .on(AnsiColor::Green.dark())
        .bold();
    assert_eq!(text_style::ansi_term::render(&s), "\x1b[1;42;38;5;9mtext\x1b[0m");
}

#[test]
fn render_several_codes_in_their_order() {
    let s = StyledStr::plain("hi").with(AnsiColor::Cyan.dark()).on(AnsiColor::White.dark());
    let s = s.underline().bold();
    assert_eq!(text_style::ansi_term::render(&s), "\x1b[1;4;47;36mhi\x1b[0m");
    let s = StyledStr::plain("hi").strikethrough().italic();
    assert_eq!(text_style::ansi_term::render(&s), "\x1b[3;9mhi\x1b[0m");
    let s = StyledStr::plain("hi").with(AnsiColor::Magenta.dark());
    assert_eq!(text_style::ansi_term::render(&s), "\x1b[35mhi\x1b[0m");
    let s = StyledStr::plain("hi").on(AnsiColor::Black.dark());
    assert_eq!(text_style::ansi_term::render(&s), "\x1b[40mhi\x1b[0m");
    let s = StyledStr::plain("hi").with(AnsiColor::Green.light()).on(AnsiColor::White.light());
    assert_eq!(text_style::ansi_term::render(&s), "\x1b[48;5;15;38;5;10mhi\x1b[0m");
}

#[test]
fn render_numbers_of_one_two_and_three_digits() {
    let numbers =
        [(0, "0"), (5, "5"), (10, "10"), (99, "99"), (100, "100"), (109, "109"), (255, "255")];
    for (n, digits) in numbers {
        let s = StyledStr::plain("x").with(Color::Rgb { r: n, g: 7, b: n });
        assert_eq!(
            text_style::ansi_term::render(&s),
            format!("\x1b[38;2;{};7;{}mx\x1b[0m", digits, digits)
        );
    }
}

#[test]
fn render_iter_changes_of_style() {
    let white = StyledStr::plain("a").with(AnsiColor::White.dark());
    let white_bold = StyledStr::plain("b").with(AnsiColor::White.dark()).bold();
    let blue = StyledStr::plain("c").with(AnsiColor::Blue.dark());
    let render = |v: Vec<StyledStr<'static>>| text_style::ansi_term::render_iter(&v);
    assert_eq!(render(vec![white.clone(), white_bold.clone()]), "\x1b[37ma\x1b[1mb\x1b[0m");
    assert_eq!(render(vec![white.clone(), blue.clone()]), "\x1b[37ma\x1b[34mc\x1b[0m");
    assert_eq!(render(vec![white_bold.clone(), white_bold.clone()]), "\x1b[1;37mbb\x1b[0m");
    assert_eq!(
        render(vec![white_bold.clone(), white.clone()]),
        "\x1b[1;37mb\x1b[0m\x1b[37ma\x1b[0m"
    );
    assert_eq!(render(vec![white_bold, StyledStr::plain("p")]), "\x1b[1;37mb\x1b[0mp");
    let first = StyledStr::plain("a")
        .with(AnsiColor::Blue.dark())
        .on(AnsiColor::Red.dark())
        .underline();
    let second = StyledStr::plain("b")
        .with(AnsiColor::Blue.dark())
        .on(AnsiColor::Green.dark())
        .underline()
        .bold();
    assert_eq!(render(vec![first, second]), "\x1b[4;41;34ma\x1b[1;42mb\x1b[0m");
    assert_eq!(render(vec![StyledStr::plain("p"), blue]), "p\x1b[34mc\x1b[0m");
}
