use weather_cli::style::{paint, Color, Span, Style, StyledText, RESET};

#[test]
fn style_makers() {
    assert_eq!(Style::plain(), Style { color: None, bold: false, dimmed: false });
    assert_eq!(Style::bold(), Style { color: None, bold: true, dimmed: false });
    assert_eq!(Style::dimmed(), Style { color: None, bold: false, dimmed: true });
    assert_eq!(
        Style::tinted(Color::Cyan),
        Style { color: Some(Color::Cyan), bold: false, dimmed: false }
    );
    assert_eq!(
        Style::bold_tinted(Color::Red),
        Style { color: Some(Color::Red), bold: true, dimmed: false }
    );
    assert_eq!(
        Style::dim_tinted(Color::Blue),
        Style { color: Some(Color::Blue), bold: false, dimmed: true }
    );
    assert!(Style::plain().is_plain());
    assert!(!Style::bold().is_plain());
    assert!(!Style::dimmed().is_plain());
    assert!(!Style::tinted(Color::Green).is_plain());
}

#[test]
fn colour_names() {
    assert_eq!(Color::Red.name(), "red");
    assert_eq!(Color::Green.name(), "green");
    assert_eq!(Color::Yellow.name(), "yellow");
    assert_eq!(Color::Blue.name(), "blue");
    assert_eq!(Color::Cyan.name(), "cyan");
    assert_eq!(Color::BrightBlue.name(), "bright blue");
    assert_eq!(Color::BrightGreen.name(), "bright green");
    assert_eq!(Color::BrightYellow.name(), "bright yellow");
    assert_eq!(Color::BrightCyan.name(), "bright cyan");
}

#[test]
fn colour_names_select_the_colours() {
    let pairs = [
        (Color::Red, colored::Color::Red),
        (Color::Green, colored::Color::Green),
        (Color::Yellow, colored::Color::Yellow),
        (Color::Blue, colored::Color::Blue),
        (Color::Cyan, colored::Color::Cyan),
        (Color::BrightBlue, colored::Color::BrightBlue),
        (Color::BrightGreen, colored::Color::BrightGreen),
        (Color::BrightYellow, colored::Color::BrightYellow),
        (Color::BrightCyan, colored::Color::BrightCyan),
    ];
    for (ours, theirs) in pairs {
        assert_eq!(colored::Color::from(ours.name()), theirs);
    }
}

#[test]
fn styled_text_is_built_span_by_span() {
    let mut text = StyledText::new();
    assert_eq!(text.len(), 0);
    assert_eq!(text.plain_text(), "");
    text.push("a", Style::bold());
    text.push_joined("b", "c", "d", Style::plain());
    assert_eq!(text.len(), 2);
    assert_eq!(text.spans[0].text, "a");
    assert_eq!(text.spans[0].style, Style::bold());
    assert_eq!(text.spans[1].text, "bcd");
    assert_eq!(text.spans[1].style, Style::plain());
    let mut more = StyledText::new();
    more.push("e", Style::tinted(Color::Red));
    more.push("", Style::dimmed());
    text.append(more);
    assert_eq!(text.len(), 4);
    assert_eq!(text.spans[2].text, "e");
    assert_eq!(text.spans[2].style, Style::tinted(Color::Red));
    assert_eq!(text.plain_text(), "abcde");
    text.append(StyledText::new());
    assert_eq!(text.len(), 4);
}

#[test]
fn plain_text_does_not_depend_on_styles() {
    let styled = StyledText {
        spans: vec![
            Span { text: "one ".to_string(), style: Style::bold_tinted(Color::Cyan) },
            Span { text: "two".to_string(), style: Style::dimmed() },
        ],
    };
    let unstyled = StyledText {
        spans: vec![
            Span { text: "one ".to_string(), style: Style::plain() },
            Span { text: "two".to_string(), style: Style::plain() },
        ],
    };
    assert_eq!(styled.plain_text(), "one two");
    assert_eq!(styled.plain_text(), unstyled.plain_text());
}

#[test]
fn plain_spans_are_never_painted() {
    colored::control::set_override(true);
    assert_eq!(paint("text", Style::plain()), "text");
    assert_eq!(paint("", Style::plain()), "");
    let mut text = StyledText::new();
    text.push("one ", Style::plain());
    text.push("two", Style::plain());
    assert_eq!(text.colorize(), "one two");
    assert_eq!(text.colorize(), text.plain_text());
    colored::control::unset_override();
}

#[test]
fn painting_follows_the_colour_switch() {
    colored::control::set_override(false);
    assert_eq!(paint("text", Style::bold_tinted(Color::Red)), "text");
    assert_eq!(paint("text", Style::dimmed()), "text");
    let mut text = StyledText::new();
    text.push("one ", Style::bold());
    text.push("two", Style::tinted(Color::BrightBlue));
    assert_eq!(text.colorize(), "one two");

    colored::control::set_override(true);
    assert_eq!(paint("text", Style::tinted(Color::Red)), "\u{1b}[31mtext\u{1b}[0m");
    assert_eq!(paint("text", Style::bold()), "\u{1b}[1mtext\u{1b}[0m");
    assert_eq!(paint("text", Style::dimmed()), "\u{1b}[2mtext\u{1b}[0m");
    assert_eq!(paint("text", Style::bold_tinted(Color::Cyan)), "\u{1b}[1;36mtext\u{1b}[0m");
    assert_eq!(paint("text", Style::tinted(Color::BrightBlue)), "\u{1b}[94mtext\u{1b}[0m");
    assert_eq!(paint("text", Style::dim_tinted(Color::Yellow)), "\u{1b}[2;33mtext\u{1b}[0m");
    assert_eq!(
        paint("text", Style { color: Some(Color::Green), bold: true, dimmed: true }),
        "\u{1b}[1;2;32mtext\u{1b}[0m"
    );
    assert_eq!(text.colorize(), "\u{1b}[1mone \u{1b}[0m\u{1b}[94mtwo\u{1b}[0m");
    colored::control::unset_override();
}

#[test]
fn a_painted_text_ends_with_the_reset_sequence() {
    assert_eq!(RESET, "\u{1b}[0m");
    colored::control::set_override(true);
    for style in [
        Style::bold(),
        Style::dimmed(),
        Style::tinted(Color::Red),
        Style::bold_tinted(Color::BrightCyan),
        Style::dim_tinted(Color::Green),
    ] {
        for text in ["", "x", "Test City", "☀️ clear sky"] {
            let painted = paint(text, style);
            assert!(painted.starts_with("\u{1b}["));
            assert!(painted.ends_with(RESET));
            let code = painted.find('m').unwrap() + 1;
            assert_eq!(&painted[code..painted.len() - RESET.len()], text);
        }
    }
    colored::control::unset_override();
}

#[test]
fn a_text_that_holds_a_reset_sequence_is_painted_anew_behind_it() {
    colored::control::set_override(true);
    assert_eq!(
        paint("a\u{1b}[0mb", Style::bold()),
        "\u{1b}[1ma\u{1b}[0m\u{1b}[1mb\u{1b}[0m"
    );
    colored::control::set_override(false);
    assert_eq!(paint("a\u{1b}[0mb", Style::bold()), "a\u{1b}[0mb");
    colored::control::unset_override();
}
