use appseed_cli::paint::{join, paint, paint_spans, render_line};
use appseed_cli::style::{Line, Style};

const STYLES: [Style; 10] = [
    Style::Plain,
    Style::Bold,
    Style::Italic,
    Style::Green,
    Style::Yellow,
    Style::Blue,
    Style::BoldGreen,
    Style::BoldYellow,
    Style::BoldBlue,
    Style::ItalicBlue,
];

#[test]
fn unstyled_text_is_handed_on() {
    assert_eq!(paint("plain text", Style::Plain), "plain text");
    assert_eq!(paint("", Style::Plain), "");
    assert_eq!(paint("a\x1b[0mb", Style::Plain), "a\x1b[0mb");
}

#[test]
fn painted_text_is_the_text_or_stands_before_the_closing_sequence() {
    for style in STYLES {
        for text in ["cd", "", "my app", "\u{2714} done"] {
            let out = paint(text, style);
            let wrapped = out.ends_with(&format!("{}\x1b[0m", text));
            assert!(out == text || wrapped);
        }
    }
}

#[test]
fn parts_are_joined_in_order() {
    let parts = vec!["a".to_string(), String::new(), "bc".to_string()];
    assert_eq!(join(&parts), "abc");
    assert_eq!(join(&Vec::new()), "");
}

#[test]
fn an_unstyled_line_comes_out_as_it_says() {
    let line = Line::new().with("    # Run", Style::Plain).with(" now", Style::Plain);
    assert_eq!(render_line(&line), "    # Run now");
    assert_eq!(render_line(&line), line.plain_text());
    assert_eq!(render_line(&Line::new()), "");
}

#[test]
fn a_rendered_line_holds_the_text_of_every_span() {
    let line = Line::enter_folder("myapp");
    let out = render_line(&line);
    let cd = out.find("cd").unwrap();
    let folder = out.find("myapp").unwrap();
    assert!(out.starts_with("    "));
    assert!(cd < folder);
    let parts = paint_spans(&line);
    assert_eq!(parts.len(), 4);
    assert_eq!(parts[0], "    ");
    assert!(parts[1].contains("cd"));
    assert_eq!(parts[2], " ");
    assert!(parts[3].contains("myapp"));
}

#[test]
fn with_and_without_colours() {
    colored::control::set_override(true);
    assert_eq!(paint("x", Style::Plain), "x");
    assert_eq!(paint("x", Style::Bold), "\x1b[1mx\x1b[0m");
    assert_eq!(paint("x", Style::Italic), "\x1b[3mx\x1b[0m");
    assert_eq!(paint("x", Style::Green), "\x1b[32mx\x1b[0m");
    assert_eq!(paint("x", Style::Yellow), "\x1b[33mx\x1b[0m");
    assert_eq!(paint("x", Style::Blue), "\x1b[34mx\x1b[0m");
    assert_eq!(paint("x", Style::BoldGreen), "\x1b[1;32mx\x1b[0m");
    assert_eq!(paint("x", Style::BoldYellow), "\x1b[1;33mx\x1b[0m");
    assert_eq!(paint("x", Style::BoldBlue), "\x1b[1;34mx\x1b[0m");
    assert_eq!(paint("x", Style::ItalicBlue), "\x1b[3;34mx\x1b[0m");
    let line = Line::enter_folder("myapp");
    assert_eq!(
        paint_spans(&line),
        vec!["    ", "\x1b[1;33mcd\x1b[0m", " ", "\x1b[3mmyapp\x1b[0m"]
    );
    assert_eq!(render_line(&line), "    \x1b[1;33mcd\x1b[0m \x1b[3mmyapp\x1b[0m");

    colored::control::set_override(false);
    for style in STYLES {
        assert_eq!(paint("cd", style), "cd");
    }
    let line = Line::browse("http://localhost:5000", Style::Bold);
    assert_eq!(render_line(&line), "    And open your browser at: http://localhost:5000");
    assert_eq!(render_line(&line), line.plain_text());
    colored::control::unset_override();
}
