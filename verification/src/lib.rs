//! The verified core of an interactive file explorer.
//!
//! The crate decides everything the explorer does and performs none of it:
//! a host program reads lines, touches the file system and prints, and this
//! library tells it what to read, touch and print next.
//!
//! * [`style`] describes coloured text and renders it to terminal text.
//! * [`path`] resolves a user-supplied path against the current directory.
//! * [`token`] splits an input line into whitespace-separated words.
//! * [`command`] recognises the commands of the prompt.
//! * [`explorer`] holds the current directory and drives each file
//!   operation, one request to the host at a time.
//! * [`shell`] is the command loop: one event in, output and the next
//!   action out.

pub mod command;
pub mod explorer;
pub mod path;
pub mod shell;
pub mod style;
pub mod token;
