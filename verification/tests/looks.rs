use file_explorer::style::{Hue, Look, Span};

#[test]
fn the_plain_look_sets_nothing() {
    assert_eq!(Look::plain(), Look { fg: None, bg: None, bold: false, underline: false });
}

#[test]
fn a_coloured_look_sets_the_foreground_only() {
    assert_eq!(
        Look::tint(Hue::Cyan),
        Look { fg: Some(Hue::Cyan), bg: None, bold: false, underline: false }
    );
}

#[test]
fn each_change_of_a_look_keeps_the_rest() {
    let base = Look::tint(Hue::Red);
    assert_eq!(base.bold(), Look { fg: Some(Hue::Red), bg: None, bold: true, underline: false });
    assert_eq!(
        base.underlined(),
        Look { fg: Some(Hue::Red), bg: None, bold: false, underline: true }
    );
    assert_eq!(
        base.on(Hue::White),
        Look { fg: Some(Hue::Red), bg: Some(Hue::White), bold: false, underline: false }
    );
    assert_eq!(
        base.bold().on(Hue::Blue).underlined(),
        Look { fg: Some(Hue::Red), bg: Some(Hue::Blue), bold: true, underline: true }
    );
    assert_eq!(base.on(Hue::Blue).on(Hue::Green).bg, Some(Hue::Green));
}

#[test]
fn a_span_holds_its_text_and_look() {
    assert_eq!(
        Span::new("docs", Look::tint(Hue::Blue).bold()),
        Span {
            text: "docs".to_string(),
            look: Look { fg: Some(Hue::Blue), bg: None, bold: true, underline: false },
        }
    );
    assert_eq!(Span::plain("  "), Span { text: "  ".to_string(), look: Look::plain() });
}
