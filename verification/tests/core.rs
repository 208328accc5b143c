use text_style::{
    ansi_to_rgb, AnsiColor, AnsiMode, Color, Effect, Effects, EffectsIter, Style, StyledStr,
    StyledString, EFFECTS,
};

const COLORS: [AnsiColor; 8] = [
    AnsiColor::Black,
    AnsiColor::Red,
    AnsiColor::Green,
    AnsiColor::Yellow,
    AnsiColor::Blue,
    AnsiColor::Magenta,
    AnsiColor::Cyan,
    AnsiColor::White,
];

fn all_effect_sets() -> Vec<Effects> {
    let mut sets = Vec::new();
    for bits in 0..16u8 {
        sets.push(Effects {
            is_bold: bits & 1 != 0,
            is_italic: bits & 2 != 0,
            is_underline: bits & 4 != 0,
            is_strikethrough: bits & 8 != 0,
        });
    }
    sets
}

fn sample_colors() -> Vec<Option<Color>> {
    vec![
        None,
        Some(AnsiColor::Red.dark()),
        Some(AnsiColor::Red.light()),
        Some(Color::Rgb { r: 1, g: 2, b: 3 }),
    ]
}

fn sample_styles() -> Vec<Style> {
    let mut styles = Vec::new();
    for fg in sample_colors() {
        for bg in sample_colors() {
            let bold = Effects::only(Effect::Bold);
            let underline = Effects::only(Effect::Underline);
            for effects in [Effects::empty(), bold, underline] {
                styles.push(Style::new(fg, bg, effects));
            }
        }
    }
    styles
}

#[test]
fn dark_and_light_build_ansi_colors() {
    for color in COLORS {
        assert_eq!(color.dark(), Color::Ansi { color, mode: AnsiMode::Dark });
        assert_eq!(color.light(), Color::Ansi { color, mode: AnsiMode::Light });
    }
}

#[test]
fn palette_has_the_sixteen_fixed_triples() {
    let dark = [
        (0, 0, 0),
        (170, 0, 0),
        (0, 170, 0),
        (170, 85, 0),
        (0, 0, 170),
        (170, 0, 170),
        (0, 170, 170),
        (170, 170, 170),
    ];
    let light = [
        (85, 85, 85),
        (255, 85, 85),
        (85, 255, 85),
        (255, 255, 85),
        (85, 85, 255),
        (255, 85, 255),
        (85, 255, 255),
        (255, 255, 255),
    ];
    for (i, color) in COLORS.iter().enumerate() {
        assert_eq!(ansi_to_rgb(*color, AnsiMode::Dark), dark[i]);
        assert_eq!(ansi_to_rgb(*color, AnsiMode::Light), light[i]);
    }
}

#[test]
fn dark_yellow_is_brown() {
    assert_eq!(ansi_to_rgb(AnsiColor::Yellow, AnsiMode::Dark), (170, 85, 0));
}

#[test]
fn to_rgb_keeps_rgb_and_looks_up_ansi() {
    assert_eq!(Color::Rgb { r: 12, g: 0, b: 255 }.to_rgb(), (12, 0, 255));
    assert_eq!(AnsiColor::Green.light().to_rgb(), (85, 255, 85));
    assert_eq!(AnsiColor::White.dark().to_rgb(), (170, 170, 170));
}

#[test]
fn effects_are_declared_in_order() {
    assert_eq!(
        EFFECTS,
        [Effect::Bold, Effect::Italic, Effect::Underline, Effect::Strikethrough]
    );
}

#[test]
fn empty_set_has_no_effect() {
    let empty = Effects::empty();
    assert!(empty.is_empty());
    assert_eq!(empty, Effects::new());
    assert_eq!(empty, Effects::default());
    for effect in EFFECTS {
        assert!(!empty.is_set(effect));
    }
    assert_eq!(empty.to_vec(), Vec::<Effect>::new());
}

#[test]
fn only_sets_one_effect() {
    for effect in EFFECTS {
        let set = Effects::only(effect);
        assert!(!set.is_empty());
        assert_eq!(set, Effects::from(effect));
        for other in EFFECTS {
            assert_eq!(set.is_set(other), other == effect);
        }
        assert_eq!(set.to_vec(), vec![effect]);
    }
}

#[test]
fn set_and_unset_touch_one_effect() {
    for start in all_effect_sets() {
        for effect in EFFECTS {
            for value in [true, false] {
                let mut set = start;
                set.set(effect, value);
                for other in EFFECTS {
                    let expected = if other == effect { value } else { start.is_set(other) };
                    assert_eq!(set.is_set(other), expected);
                }
            }
        }
    }
}

#[test]
fn bold_and_italic_together() {
    let mut set = Effects::only(Effect::Bold);
    set.set(Effect::Italic, true);
    assert_eq!(
        set,
        Effects { is_bold: true, is_italic: true, is_underline: false, is_strikethrough: false }
    );
}

#[test]
fn union_with_empty_is_identity() {
    for x in all_effect_sets() {
        assert_eq!(Effects::empty().and(x), x);
        assert_eq!(x.and(Effects::empty()), x);
    }
}

#[test]
fn union_is_idempotent() {
    for x in all_effect_sets() {
        assert_eq!(x.and(x), x);
    }
}

#[test]
fn union_is_commutative_and_associative() {
    for a in all_effect_sets() {
        for b in all_effect_sets() {
            assert_eq!(a.and(b), b.and(a));
            for effect in EFFECTS {
                assert_eq!(a.and(b).is_set(effect), a.is_set(effect) || b.is_set(effect));
            }
            for c in all_effect_sets() {
                assert_eq!(a.and(b).and(c), a.and(b.and(c)));
            }
        }
    }
}

#[test]
fn iteration_follows_the_declared_order() {
    let set = Effects {
        is_bold: true,
        is_italic: false,
        is_underline: true,
        is_strikethrough: true,
    };
    let mut iter = set.into_iter();
    assert_eq!(iter.next(), Some(Effect::Bold));
    assert_eq!(iter.next(), Some(Effect::Underline));
    assert_eq!(iter.next(), Some(Effect::Strikethrough));
    assert_eq!(iter.next(), None);
    assert_eq!(iter.next(), None);
}

#[test]
fn iterator_from_a_set() {
    let set = Effects::only(Effect::Bold).and(Effects::only(Effect::Strikethrough));
    let mut iter = EffectsIter::from(set);
    assert_eq!(iter, set.into_iter());
    assert_eq!(iter.next(), Some(Effect::Bold));
    assert_eq!(iter.next(), Some(Effect::Strikethrough));
    assert_eq!(iter.next(), None);
}

#[test]
fn iteration_can_be_started_again() {
    let set = Effects::only(Effect::Italic);
    let mut first = set.into_iter();
    assert_eq!(first.next(), Some(Effect::Italic));
    assert_eq!(first.next(), None);
    let mut second = set.into_iter();
    assert_eq!(second.next(), Some(Effect::Italic));
    assert_eq!(set, Effects::only(Effect::Italic));
}

#[test]
fn iteration_yields_the_members() {
    for set in all_effect_sets() {
        let list = set.to_vec();
        let expected: Vec<Effect> = EFFECTS.iter().copied().filter(|e| set.is_set(*e)).collect();
        assert_eq!(list, expected);
        assert_eq!(Effects::from_iter(&list), set);
    }
}

#[test]
fn from_iter_collects_with_repetitions() {
    let set = Effects::from_iter(&[Effect::Underline, Effect::Bold, Effect::Underline]);
    assert_eq!(
        set,
        Effects { is_bold: true, is_italic: false, is_underline: true, is_strikethrough: false }
    );
    assert_eq!(Effects::from_iter(&[]), Effects::empty());
}

#[test]
fn style_constructors() {
    let red = AnsiColor::Red.dark();
    assert_eq!(Style::fg(red), Style { fg: Some(red), bg: None, effects: Effects::empty() });
    assert_eq!(Style::bg(red), Style { fg: None, bg: Some(red), effects: Effects::empty() });
    assert_eq!(
        Style::effect(Effect::Bold),
        Style { fg: None, bg: None, effects: Effects::only(Effect::Bold) }
    );
    assert_eq!(Style::from(Effect::Bold), Style::effect(Effect::Bold));
    let both = Effects::only(Effect::Bold).and(Effects::only(Effect::Italic));
    assert_eq!(Style::effects(both), Style { fg: None, bg: None, effects: both });
    assert_eq!(Style::from(both), Style::effects(both));
    assert_eq!(Style::default(), Style { fg: None, bg: None, effects: Effects::empty() });
}

#[test]
fn and_combines_foreground_and_background() {
    assert_eq!(
        Style::fg(AnsiColor::Red.dark()).and(Style::bg(AnsiColor::White.dark())),
        Style::new(
            Some(AnsiColor::Red.dark()),
            Some(AnsiColor::White.dark()),
            Effects::empty()
        ),
    );
}

#[test]
fn and_lets_the_last_color_win() {
    let a = AnsiColor::Red.dark();
    let b = Color::Rgb { r: 1, g: 2, b: 3 };
    assert_eq!(Style::fg(a).and(Style::fg(b)).fg, Some(b));
    assert_eq!(Style::fg(b).and(Style::fg(a)).fg, Some(a));
    assert_eq!(Style::bg(a).and(Style::bg(b)).bg, Some(b));
    assert_eq!(Style::fg(a).and(Style::effect(Effect::Bold)).fg, Some(a));
}

#[test]
fn and_is_not_commutative_on_colors() {
    let a = Style::fg(AnsiColor::Red.dark());
    let b = Style::fg(AnsiColor::Blue.dark());
    assert_ne!(a.and(b), b.and(a));
}

#[test]
fn and_unites_effects() {
    let bold = Style::effect(Effect::Bold);
    let italic = Style::effect(Effect::Italic);
    assert_eq!(
        bold.and(italic).effects,
        Effects { is_bold: true, is_italic: true, is_underline: false, is_strikethrough: false }
    );
    assert_eq!(bold.and(italic).effects, italic.and(bold).effects);
}

#[test]
fn and_is_associative() {
    let styles = sample_styles();
    for a in &styles {
        for b in &styles {
            for c in &styles {
                assert_eq!(a.and(*b).and(*c), a.and(b.and(*c)));
            }
        }
    }
}

#[test]
fn and_with_default_changes_nothing() {
    for a in sample_styles() {
        assert_eq!(a.and(Style::default()), a);
        assert_eq!(Style::default().and(a), a);
    }
}

#[test]
fn and_option_keeps_absence() {
    let a = Style::fg(AnsiColor::Red.dark());
    let b = Style::effect(Effect::Bold);
    assert_eq!(Style::and_option(None, None), None);
    assert_eq!(Style::and_option(Some(a), None), Some(a));
    assert_eq!(Style::and_option(None, Some(b)), Some(b));
    assert_eq!(Style::and_option(Some(a), Some(b)), Some(a.and(b)));
}

#[test]
fn setters_change_one_setting() {
    let mut style = Style::default();
    style.set_fg(AnsiColor::Cyan.light());
    style.set_bold(true);
    style.set_italic(true);
    style.set_underline(true);
    style.strikethrough(true);
    style.set_italic(false);
    style.set_effect(Effect::Underline, false);
    assert_eq!(
        style,
        Style {
            fg: Some(AnsiColor::Cyan.light()),
            bg: None,
            effects: Effects {
                is_bold: true,
                is_italic: false,
                is_underline: false,
                is_strikethrough: true,
            },
        }
    );
    style.set_bg(Color::Rgb { r: 0, g: 0, b: 0 });
    assert_eq!(style.bg, Some(Color::Rgb { r: 0, g: 0, b: 0 }));
    assert_eq!(style.fg, Some(AnsiColor::Cyan.light()));
}

#[test]
fn styled_and_builder_agree() {
    let s1 = StyledStr::styled("test", Style::fg(AnsiColor::Red.dark()));
    let s2 = StyledStr::plain("test").with(AnsiColor::Red.dark());
    assert_eq!(s1, s2);

    let s = format!("Some number: {}", 42);
    let s1 = StyledString::styled(s.clone(), Style::fg(AnsiColor::Red.dark()));
    let s2 = StyledString::plain(s.clone()).with(AnsiColor::Red.dark());
    assert_eq!(s1, s2);
}

#[test]
fn plain_has_no_style() {
    assert_eq!(StyledStr::plain("t"), StyledStr { s: "t", style: None });
    assert_eq!(StyledStr::new("t", None), StyledStr::plain("t"));
    assert_eq!(StyledStr::from("t"), StyledStr::plain("t"));
    assert_eq!(
        StyledString::from("t".to_owned()),
        StyledString { s: "t".to_owned(), style: None }
    );
    assert_eq!(StyledString::default(), StyledString::plain(String::new()));
}

#[test]
fn bold_on_plain_sets_only_bold() {
    let s = StyledStr::plain("t").bold();
    let effects = s.style.unwrap().effects;
    assert!(effects.is_set(Effect::Bold));
    assert!(!effects.is_set(Effect::Italic));
    assert!(!effects.is_set(Effect::Underline));
    assert!(!effects.is_set(Effect::Strikethrough));
    assert_eq!(s.style, Some(Style::effect(Effect::Bold)));
    assert_eq!(s.s, "t");
}

#[test]
fn each_builder_sets_its_effect() {
    assert_eq!(StyledStr::plain("t").bold().style, Some(Style::effect(Effect::Bold)));
    assert_eq!(StyledStr::plain("t").italic().style, Some(Style::effect(Effect::Italic)));
    assert_eq!(StyledStr::plain("t").underline().style, Some(Style::effect(Effect::Underline)));
    assert_eq!(
        StyledStr::plain("t").strikethrough().style,
        Some(Style::effect(Effect::Strikethrough))
    );
    for effect in EFFECTS {
        assert_eq!(StyledStr::plain("t").effect(effect).style, Some(Style::effect(effect)));
        assert_eq!(
            StyledString::plain("t".to_owned()).effect(effect).style,
            Some(Style::effect(effect))
        );
    }
    let owned = StyledString::plain("t".to_owned()).bold().italic().underline().strikethrough();
    assert_eq!(
        owned.style.unwrap().effects,
        Effects { is_bold: true, is_italic: true, is_underline: true, is_strikethrough: true }
    );
}

#[test]
fn builders_keep_what_is_set() {
    let s = StyledStr::plain("text")
        .with(AnsiColor::Red.light())
        .on(AnsiColor::Green.dark())
        .bold();
    assert_eq!(s.s, "text");
    assert_eq!(
        s.style,
        Some(Style {
            fg: Some(AnsiColor::Red.light()),
            bg: Some(AnsiColor::Green.dark()),
            effects: Effects::only(Effect::Bold),
        })
    );
    let s = s.with(AnsiColor::Blue.dark());
    assert_eq!(s.style.unwrap().fg, Some(AnsiColor::Blue.dark()));
    assert_eq!(s.style.unwrap().bg, Some(AnsiColor::Green.dark()));
}

#[test]
fn background_on_plain_text() {
    let s = StyledStr::plain("hi").on(AnsiColor::Green.light());
    assert_eq!(
        s.style,
        Some(Style {
            fg: None,
            bg: Some(Color::Ansi { color: AnsiColor::Green, mode: AnsiMode::Light }),
            effects: Effects::empty(),
        })
    );
    assert_eq!(s.style.unwrap().bg.unwrap().to_rgb(), (85, 255, 85));
}

#[test]
fn style_mut_creates_the_default_style() {
    let mut s = StyledStr::plain("t");
    assert_eq!(*s.style_mut(), Style::default());
    assert_eq!(s.style, Some(Style::default()));
    s.style_mut().set_bold(true);
    assert_eq!(s.style, Some(Style::effect(Effect::Bold)));
    assert_eq!(s.s, "t");

    let mut owned = StyledString::styled("t".to_owned(), Style::fg(AnsiColor::Red.dark()));
    owned.style_mut().set_bg(AnsiColor::Blue.dark());
    assert_eq!(
        owned.style,
        Some(Style::fg(AnsiColor::Red.dark()).and(Style::bg(AnsiColor::Blue.dark())))
    );
    assert_eq!(owned.s, "t");
}

#[test]
fn borrowed_to_owned_keeps_text_and_style() {
    assert_eq!(
        StyledString::from(StyledStr::plain("x").italic()),
        StyledString::styled("x".to_owned(), Style::effect(Effect::Italic))
    );
    assert_eq!(StyledString::from(StyledStr::plain("")), StyledString::plain(String::new()));
}

#[test]
fn owned_to_borrowed_keeps_text_and_style() {
    let owned = StyledString::plain("x y".to_owned()).with(AnsiColor::Red.dark());
    let borrowed = StyledStr::from(&owned);
    assert_eq!(borrowed, StyledStr::styled("x y", Style::fg(AnsiColor::Red.dark())));
    assert_eq!(StyledStr::from(&borrowed), borrowed);
    assert_eq!(StyledString::from(borrowed), owned);
}
