use file_explorer::style::{render, Hue, Look, Span};

#[test]
fn without_colours_a_span_is_its_text() {
    colored::control::set_override(false);
    for look in [
        Look::plain(),
        Look::tint(Hue::Yellow),
        Look::tint(Hue::Blue).bold(),
        Look::tint(Hue::Black).on(Hue::Cyan).bold(),
        Look::plain().bold().underlined(),
    ] {
        assert_eq!(render(&vec![Span::new("a.txt", look)]), "a.txt");
    }
}

#[test]
fn without_colours_a_line_is_its_texts() {
    colored::control::set_override(false);
    let line = vec![
        Span::new("✗", Look::tint(Hue::Red)),
        Span::plain(" "),
        Span::new("Error: Directory not found: /tmp/work/nope", Look::tint(Hue::Red)),
    ];
    assert_eq!(render(&line), "✗ Error: Directory not found: /tmp/work/nope");
}

#[test]
fn without_colours_an_empty_line_renders_to_nothing() {
    colored::control::set_override(false);
    assert_eq!(render(&vec![]), "");
}

#[test]
fn without_colours_a_text_with_escape_sequences_is_kept() {
    colored::control::set_override(false);
    let text = "odd\x1b[0mname";
    assert_eq!(render(&vec![Span::new(text, Look::tint(Hue::Yellow))]), text);
}
