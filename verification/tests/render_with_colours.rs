use file_explorer::explorer::{FileExplorer, RawEntry};
use file_explorer::style::{render, Hue, Look, Span};

fn shown(text: &str, look: Look) -> String {
    colored::control::set_override(true);
    render(&vec![Span::new(text, look)])
}

#[test]
fn a_plain_span_is_its_text_even_with_colours() {
    assert_eq!(shown("plain", Look::plain()), "plain");
}

#[test]
fn an_empty_line_renders_to_nothing_with_colours() {
    colored::control::set_override(true);
    assert_eq!(render(&vec![]), "");
}

#[test]
fn a_foreground_colour_wraps_the_text() {
    assert_eq!(shown("a.txt", Look::tint(Hue::Yellow)), "\x1b[33ma.txt\x1b[0m");
    assert_eq!(shown("✓", Look::tint(Hue::Green)), "\x1b[32m✓\x1b[0m");
    assert_eq!(shown("✗", Look::tint(Hue::Red)), "\x1b[31m✗\x1b[0m");
    assert_eq!(shown("/tmp/work", Look::tint(Hue::Cyan)), "\x1b[36m/tmp/work\x1b[0m");
    assert_eq!(shown("Show this help", Look::tint(Hue::White)), "\x1b[37mShow this help\x1b[0m");
}

#[test]
fn every_hue_has_its_foreground_code() {
    let codes = [
        (Hue::Black, "30"),
        (Hue::Red, "31"),
        (Hue::Green, "32"),
        (Hue::Yellow, "33"),
        (Hue::Blue, "34"),
        (Hue::Cyan, "36"),
        (Hue::White, "37"),
    ];
    for (hue, code) in codes {
        assert_eq!(shown("x", Look::tint(hue)), format!("\x1b[{}mx\x1b[0m", code));
    }
}

#[test]
fn every_hue_has_its_background_code() {
    let codes = [
        (Hue::Black, "40"),
        (Hue::Red, "41"),
        (Hue::Green, "42"),
        (Hue::Yellow, "43"),
        (Hue::Blue, "44"),
        (Hue::Cyan, "46"),
        (Hue::White, "47"),
    ];
    for (hue, code) in codes {
        assert_eq!(shown("x", Look::plain().on(hue)), format!("\x1b[{}mx\x1b[0m", code));
    }
}

#[test]
fn emphasis_comes_before_the_colours() {
    assert_eq!(shown("docs", Look::tint(Hue::Blue).bold()), "\x1b[1;34mdocs\x1b[0m");
    assert_eq!(shown("➤", Look::tint(Hue::Green).bold()), "\x1b[1;32m➤\x1b[0m");
    assert_eq!(shown("cd", Look::tint(Hue::Cyan).bold()), "\x1b[1;36mcd\x1b[0m");
    assert_eq!(shown("Unknown command", Look::tint(Hue::Red).bold()), "\x1b[1;31mUnknown command\x1b[0m");
    assert_eq!(shown("Contents", Look::plain().bold()), "\x1b[1mContents\x1b[0m");
    assert_eq!(shown("x", Look::plain().underlined()), "\x1b[4mx\x1b[0m");
    assert_eq!(
        shown("Available commands:", Look::plain().bold().underlined()),
        "\x1b[1;4mAvailable commands:\x1b[0m"
    );
}

#[test]
fn the_background_comes_before_the_foreground() {
    assert_eq!(
        shown(" Rust File Explorer ", Look::tint(Hue::Black).on(Hue::Cyan).bold()),
        "\x1b[1;46;30m Rust File Explorer \x1b[0m"
    );
    assert_eq!(shown("x", Look::tint(Hue::Red).on(Hue::White)), "\x1b[47;31mx\x1b[0m");
    assert_eq!(
        shown("x", Look::tint(Hue::Yellow).on(Hue::Blue).bold().underlined()),
        "\x1b[1;4;44;33mx\x1b[0m"
    );
}

#[test]
fn the_spans_of_a_line_follow_each_other() {
    colored::control::set_override(true);
    let line = vec![
        Span::new("✓", Look::tint(Hue::Green)),
        Span::plain(" "),
        Span::new("Created a.txt", Look::tint(Hue::Cyan)),
    ];
    assert_eq!(render(&line), "\x1b[32m✓\x1b[0m \x1b[36mCreated a.txt\x1b[0m");
}

#[test]
fn listed_names_render_in_the_colour_of_their_kind() {
    colored::control::set_override(true);
    let entries = vec![
        RawEntry { name: Some("docs".to_string()), is_dir: true },
        RawEntry { name: Some("a.txt".to_string()), is_dir: false },
    ];
    let names = FileExplorer::list_files_with_color(&entries);
    assert_eq!(render(&names[0..1].to_vec()), "\x1b[1;34mdocs\x1b[0m");
    assert_eq!(render(&names[1..2].to_vec()), "\x1b[33ma.txt\x1b[0m");
}

#[test]
fn a_look_is_switched_on_again_after_a_reset_inside_the_text() {
    assert_eq!(
        shown("a\x1b[0mb", Look::tint(Hue::Yellow)),
        "\x1b[33ma\x1b[0m\x1b[33mb\x1b[0m"
    );
    assert_eq!(
        shown("\x1b[0mstart", Look::tint(Hue::Blue).bold()),
        "\x1b[1;34m\x1b[0m\x1b[1;34mstart\x1b[0m"
    );
    assert_eq!(
        shown("end\x1b[0m", Look::tint(Hue::Red)),
        "\x1b[31mend\x1b[0m\x1b[31m\x1b[0m"
    );
}

#[test]
fn every_reset_inside_the_text_is_followed_by_the_opening() {
    assert_eq!(
        shown("a\x1b[0m\x1b[0mb\x1b[0mc", Look::tint(Hue::Cyan)),
        "\x1b[36ma\x1b[0m\x1b[36m\x1b[0m\x1b[36mb\x1b[0m\x1b[36mc\x1b[0m"
    );
    assert_eq!(
        shown("é━\x1b[0m✓📂\x1b[0mz", Look::plain().bold().underlined()),
        "\x1b[1;4mé━\x1b[0m\x1b[1;4m✓📂\x1b[0m\x1b[1;4mz\x1b[0m"
    );
}

#[test]
fn other_escape_sequences_inside_the_text_are_kept() {
    assert_eq!(shown("a\x1b[0b", Look::tint(Hue::Green)), "\x1b[32ma\x1b[0b\x1b[0m");
    assert_eq!(shown("a\x1b[1mb", Look::tint(Hue::Green)), "\x1b[32ma\x1b[1mb\x1b[0m");
    assert_eq!(shown("[0m", Look::tint(Hue::Green)), "\x1b[32m[0m\x1b[0m");
    assert_eq!(shown("\x1b[0", Look::tint(Hue::Green)), "\x1b[32m\x1b[0\x1b[0m");
}

#[test]
fn a_plain_span_keeps_a_reset_inside_its_text() {
    assert_eq!(shown("a\x1b[0mb", Look::plain()), "a\x1b[0mb");
}
