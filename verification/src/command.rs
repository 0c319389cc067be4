//! The commands of the prompt.
//!
//! | command | argument | effect |
//! |---|---|---|
//! | `cd <dir>` | one | change the current directory |
//! | `ls` | none | list the current directory |
//! | `open <file>` | one | open a file with the default application |
//! | `delete <path>` | one | remove a file, or a directory with its contents |
//! | `create <file>` | one | create an empty file |
//! | `help` | none | show the command reference |
//! | `exit` | none | end the session |
//!
//! The first word of a line selects the command and the second word, if
//! there is one, is its argument. Further words are ignored.

use crate::token::{split_whitespace, words};
use vstd::prelude::*;
use vstd::string::*;

verus! {

/// What a line of input asks for.
#[derive(Clone, Debug, PartialEq, Eq)]
pub enum Command {
    /// The line holds no word.
    Blank,
    /// `cd`, with its argument if one was given.
    Cd(Option<String>),
    /// `ls`.
    Ls,
    /// `open`, with its argument if one was given.
    Open(Option<String>),
    /// `delete`, with its argument if one was given.
    Delete(Option<String>),
    /// `create`, with its argument if one was given.
    Create(Option<String>),
    /// `help`.
    Help,
    /// `exit`.
    Exit,
    /// Any other first word.
    Unknown(String),
}

/// The mathematical view of a [`Command`].
pub enum CommandView {
    Blank,
    Cd(Option<Seq<char>>),
    Ls,
    Open(Option<Seq<char>>),
    Delete(Option<Seq<char>>),
    Create(Option<Seq<char>>),
    Help,
    Exit,
    Unknown(Seq<char>),
}

impl DeepView for Command {
    type V = CommandView;

    open spec fn deep_view(&self) -> CommandView {
        match self {
            Command::Blank => CommandView::Blank,
            Command::Cd(argument) => CommandView::Cd(argument.deep_view()),
            Command::Ls => CommandView::Ls,
            Command::Open(argument) => CommandView::Open(argument.deep_view()),
            Command::Delete(argument) => CommandView::Delete(argument.deep_view()),
            Command::Create(argument) => CommandView::Create(argument.deep_view()),
            Command::Help => CommandView::Help,
            Command::Exit => CommandView::Exit,
            Command::Unknown(word) => CommandView::Unknown(word@),
        }
    }
}

/// The argument among `parts`: the second word, if there is one.
pub open spec fn argument_of(parts: Seq<Seq<char>>) -> Option<Seq<char>> {
    if parts.len() >= 2 {
        Some(parts[1])
    } else {
        None
    }
}

/// The command that the words `parts` stand for.
pub open spec fn parsed(parts: Seq<Seq<char>>) -> CommandView {
    if parts.len() == 0 {
        CommandView::Blank
    } else if parts[0] == "cd"@ {
        CommandView::Cd(argument_of(parts))
    } else if parts[0] == "ls"@ {
        CommandView::Ls
    } else if parts[0] == "open"@ {
        CommandView::Open(argument_of(parts))
    } else if parts[0] == "delete"@ {
        CommandView::Delete(argument_of(parts))
    } else if parts[0] == "create"@ {
        CommandView::Create(argument_of(parts))
    } else if parts[0] == "help"@ {
        CommandView::Help
    } else if parts[0] == "exit"@ {
        CommandView::Exit
    } else {
        CommandView::Unknown(parts[0])
    }
}

/// Whether `word` reads `name`.
fn reads(word: &String, name: &str) -> (same: bool)
    ensures
        same == (word@ == name@),
{
    *word == String::from_str(name)
}

/// The argument among `parts`.
fn argument(parts: &Vec<String>) -> (found: Option<String>)
    ensures
        found.deep_view() == argument_of(parts.deep_view()),
{
    if parts.len() >= 2 {
        Some(parts[1].clone())
    } else {
        None
    }
}

/// Recognises the command that the words `parts` stand for.
pub fn parse(parts: &Vec<String>) -> (command: Command)
    ensures
        command.deep_view() == parsed(parts.deep_view()),
{
    if parts.len() == 0 {
        return Command::Blank;
    }
    let verb = &parts[0];
    if reads(verb, "cd") {
        Command::Cd(argument(parts))
    } else if reads(verb, "ls") {
        Command::Ls
    } else if reads(verb, "open") {
        Command::Open(argument(parts))
    } else if reads(verb, "delete") {
        Command::Delete(argument(parts))
    } else if reads(verb, "create") {
        Command::Create(argument(parts))
    } else if reads(verb, "help") {
        Command::Help
    } else if reads(verb, "exit") {
        Command::Exit
    } else {
        Command::Unknown(verb.clone())
    }
}

/// Recognises the command that `line` stands for.
pub fn parse_line(line: &str) -> (command: Command)
    ensures
        command.deep_view() == parsed(words(line@)),
{
    let parts = split_whitespace(line);
    parse(&parts)
}

} // verus!
