use genpdf::style;
use text_style::genpdf::{PdfColor, PdfStr, PdfString, PdfStyle};
use text_style::{AnsiColor, Color, StyledStr, StyledString};

fn to_color(color: PdfColor) -> style::Color {
    match color {
        PdfColor::Rgb(r, g, b) => style::Color::Rgb(r, g, b),
        PdfColor::Cmyk(c, m, y, k) => style::Color::Cmyk(c, m, y, k),
        PdfColor::Greyscale(value) => style::Color::Greyscale(value),
    }
}

fn to_style(pdf_style: PdfStyle) -> style::Style {
    let mut result = style::Style::new();
    if let Some(color) = pdf_style.color {
        result.set_color(to_color(color));
    }
    if pdf_style.is_bold {
        result.set_bold();
    }
    if pdf_style.is_italic {
        result.set_italic();
    }
    result
}

fn styled_str<'s>(s: impl Into<StyledStr<'s>>) -> style::StyledStr<'s> {
    let text = PdfStr::from(s.into());
    style::StyledStr::new(text.s, to_style(text.style))
}

fn styled_string<'s>(s: impl Into<StyledStr<'s>>) -> style::StyledString {
    let text = PdfString::from(s.into());
    style::StyledString::new(text.s, to_style(text.style))
}

#[test]
fn bold_genpdf() {
    let input = StyledStr::plain("test").bold();
    let output = styled_str(input.clone());
    assert_eq!(output.s, input.s);
    assert!(output.style.is_bold());
}

#[test]
fn italic_genpdf() {
    let input = StyledStr::plain("test").italic();
    let output = styled_str(input.clone());
    assert_eq!(output.s, input.s);
    assert!(output.style.is_italic());
}

#[test]
fn fg_genpdf() {
    let input = StyledStr::plain("test").with(AnsiColor::Red.dark());
    let output = styled_str(input.clone());
    assert_eq!(output.s, input.s);
    assert_eq!(output.style.color(), Some(style::Color::Rgb(170, 0, 0)));
}

#[test]
fn render_genpdf() {
    let plain = styled_str(StyledStr::plain("test"));
    assert_eq!(plain.s, "test");
    assert_eq!(plain.style, style::Style::new());

    let input = StyledStr::plain("test")
        .with(Color::Rgb { r: 1, g: 2, b: 3 })
        .on(AnsiColor::Red.dark())
        .underline()
        .strikethrough();
    let output = styled_str(input);
    assert_eq!(output.style.color(), Some(style::Color::Rgb(1, 2, 3)));
    assert!(!output.style.is_bold());
    assert!(!output.style.is_italic());
    assert_eq!(output.style, style::Style::new().with_color(style::Color::Rgb(1, 2, 3)));

    let owned = StyledString::plain("test".to_owned()).with(AnsiColor::Yellow.dark()).bold();
    let output = styled_string(&owned);
    assert_eq!(output.s, "test");
    assert_eq!(output.style.color(), Some(style::Color::Rgb(170, 85, 0)));
    assert!(output.style.is_bold());
    assert!(!output.style.is_italic());
}
