use file_explorer::command::{parse, parse_line, Command};

fn owned(words: &[&str]) -> Vec<String> {
    words.iter().map(|word| word.to_string()).collect()
}

fn some(text: &str) -> Option<String> {
    Some(text.to_string())
}

#[test]
fn no_word_is_a_blank_command() {
    assert_eq!(parse(&owned(&[])), Command::Blank);
    assert_eq!(parse_line(""), Command::Blank);
    assert_eq!(parse_line("   \t "), Command::Blank);
}

#[test]
fn commands_with_an_argument_take_the_second_word() {
    assert_eq!(parse_line("cd docs"), Command::Cd(some("docs")));
    assert_eq!(parse_line("open notes.md"), Command::Open(some("notes.md")));
    assert_eq!(parse_line("delete old"), Command::Delete(some("old")));
    assert_eq!(parse_line("create a.txt"), Command::Create(some("a.txt")));
}

#[test]
fn commands_with_an_argument_may_lack_it() {
    assert_eq!(parse_line("cd"), Command::Cd(None));
    assert_eq!(parse_line("open"), Command::Open(None));
    assert_eq!(parse_line("delete  "), Command::Delete(None));
    assert_eq!(parse_line("  create"), Command::Create(None));
}

#[test]
fn commands_without_an_argument_stand_alone() {
    assert_eq!(parse_line("ls"), Command::Ls);
    assert_eq!(parse_line("help"), Command::Help);
    assert_eq!(parse_line("exit"), Command::Exit);
}

#[test]
fn further_words_are_ignored() {
    assert_eq!(parse_line("cd a b c"), Command::Cd(some("a")));
    assert_eq!(parse_line("ls -la"), Command::Ls);
    assert_eq!(parse_line("exit now"), Command::Exit);
    assert_eq!(parse_line("help me please"), Command::Help);
}

#[test]
fn any_other_first_word_is_unknown() {
    assert_eq!(parse_line("rm a.txt"), Command::Unknown("rm".to_string()));
    assert_eq!(parse_line("CD docs"), Command::Unknown("CD".to_string()));
    assert_eq!(parse_line("lsx"), Command::Unknown("lsx".to_string()));
    assert_eq!(parse_line("c"), Command::Unknown("c".to_string()));
    assert_eq!(parse_line("cdd"), Command::Unknown("cdd".to_string()));
}

#[test]
fn parsing_words_agrees_with_parsing_the_line() {
    assert_eq!(parse(&owned(&["cd", ".."])), parse_line("cd .."));
    assert_eq!(parse(&owned(&["create"])), parse_line("create"));
    assert_eq!(parse(&owned(&["what", "is", "this"])), parse_line("what is this"));
}

#[test]
fn a_word_is_taken_as_it_is() {
    assert_eq!(parse(&owned(&["cd", ""])), Command::Cd(some("")));
    assert_eq!(parse(&owned(&["", "cd"])), Command::Unknown(String::new()));
    assert_eq!(parse(&owned(&["open", "two words"])), Command::Open(some("two words")));
}
