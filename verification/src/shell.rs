//! The command loop.
//!
//! A [`Shell`] is a state machine. The host feeds it one [`Event`] at a
//! time and gets a [`Step`] back: the lines to print and the next thing to
//! do, which is to read a line, to carry out a request on the file system,
//! or to stop. The shell is `Running` until the user types `exit` or the
//! input ends, and `Terminated` from then on. Errors never end the session:
//! they are printed and the prompt comes back.
//!
//! [`next`] is the whole machine as a mathematical function, and
//! [`Shell::step`] is proved to compute it.

use crate::command::{parse_line, parsed, Command, CommandView};
use crate::explorer::{
    advanced, answers, first_task, law_listed_names, listed, Ask, ErrorView, ExplorerError,
    FileExplorer, Operation, Outcome, OutcomeView, Progress, ProgressView, RawEntryView, Reply,
    ReplyView, Stage, Task, TaskView,
};
use crate::path::resolved;
use crate::style::{Hue, Look, Span, SpanView};
use crate::token::{is_space, law_no_words_iff_blank, words};
use vstd::prelude::*;
use vstd::string::*;

verus! {

/// The two states of the command loop.
#[derive(Clone, Copy, Debug, PartialEq, Eq)]
pub enum Phase {
    Running,
    Terminated,
}

/// What the host reports to the shell.
#[derive(Clone, Debug, PartialEq, Eq)]
pub enum Event {
    /// A line of input, without its line end.
    Line(String),
    /// The input has ended, or reading it has failed.
    EndOfInput,
    /// The reply to the request of the last step.
    Answer(Reply),
}

/// The mathematical view of an [`Event`].
pub enum EventView {
    Line(Seq<char>),
    EndOfInput,
    Answer(ReplyView),
}

impl DeepView for Event {
    type V = EventView;

    open spec fn deep_view(&self) -> EventView {
        match self {
            Event::Line(line) => EventView::Line(line@),
            Event::EndOfInput => EventView::EndOfInput,
            Event::Answer(reply) => EventView::Answer(reply.deep_view()),
        }
    }
}

/// What the host has to do next.
#[derive(Clone, Debug, PartialEq, Eq)]
pub enum Action {
    /// Show the prompt and read a line; report it as [`Event::Line`], or
    /// [`Event::EndOfInput`] if there is none.
    ReadLine(Vec<Span>),
    /// Do `ask` to `path` and report the result as [`Event::Answer`].
    Perform { ask: Ask, path: String },
    /// Leave the loop.
    Exit,
}

/// The mathematical view of an [`Action`].
pub enum ActionView {
    ReadLine(Seq<SpanView>),
    Perform { ask: Ask, path: Seq<char> },
    Exit,
}

impl DeepView for Action {
    type V = ActionView;

    open spec fn deep_view(&self) -> ActionView {
        match self {
            Action::ReadLine(prompt) => ActionView::ReadLine(prompt.deep_view()),
            Action::Perform { ask, path } => ActionView::Perform { ask: *ask, path: path@ },
            Action::Exit => ActionView::Exit,
        }
    }
}

/// The shell's answer to an event: lines to print, then an action.
#[derive(Clone, Debug, PartialEq, Eq)]
pub struct Step {
    pub output: Vec<Vec<Span>>,
    pub action: Action,
}

/// The mathematical view of a [`Step`].
pub struct StepView {
    pub output: Seq<Seq<SpanView>>,
    pub action: ActionView,
}

impl DeepView for Step {
    type V = StepView;

    open spec fn deep_view(&self) -> StepView {
        StepView { output: self.output.deep_view(), action: self.action.deep_view() }
    }
}

/// What the shell is waiting for.
#[derive(Clone, Debug, PartialEq, Eq)]
enum Mode {
    Prompting,
    Working { argument: String, task: Task },
    Terminated,
}

/// What the shell is waiting for, as a mathematical value.
pub enum ModeView {
    /// A line of input.
    Prompting,
    /// The host's reply to `task`, which belongs to a command with the
    /// argument `argument`.
    Working { argument: Seq<char>, task: TaskView },
    /// Nothing: the session is over.
    Terminated,
}

/// The command loop and its session state.
#[derive(Clone, Debug, PartialEq, Eq)]
pub struct Shell {
    explorer: FileExplorer,
    mode: Mode,
}

/// The mathematical view of a [`Shell`]: the current directory and what
/// the shell is waiting for.
pub struct ShellView {
    pub current: Seq<char>,
    pub mode: ModeView,
}

impl ShellView {
    /// The state of the command loop.
    pub open spec fn phase(self) -> Phase {
        if self.mode is Terminated {
            Phase::Terminated
        } else {
            Phase::Running
        }
    }
}

impl View for Shell {
    type V = ShellView;

    closed spec fn view(&self) -> ShellView {
        ShellView {
            current: self.explorer@,
            mode: match self.mode {
                Mode::Prompting => ModeView::Prompting,
                Mode::Working { argument, task } => ModeView::Working {
                    argument: argument@,
                    task: task.deep_view(),
                },
                Mode::Terminated => ModeView::Terminated,
            },
        }
    }
}

/// The prompt: a bold green arrow and the current directory in cyan.
pub open spec fn prompt(current: Seq<char>) -> Seq<SpanView> {
    seq![
        SpanView::new("➤"@, Look::tint(Hue::Green).bold()),
        SpanView::plain(" "@),
        SpanView::new(current, Look::tint(Hue::Cyan)),
        SpanView::plain(" "@),
    ]
}

/// The rule under the title: forty box-drawing dashes.
pub open spec fn rule() -> Seq<char> {
    Seq::new(40, |i: int| '━')
}

/// The title block that opens a session.
pub open spec fn banner() -> Seq<Seq<SpanView>> {
    seq![
        seq![
            SpanView::new(" Rust File Explorer "@, Look::tint(Hue::Black).on(Hue::Cyan).bold()),
        ],
        seq![SpanView::new(rule(), Look::tint(Hue::Cyan))],
    ]
}

/// The reference line of a command that takes an argument.
pub open spec fn help_with_argument(name: Seq<char>, argument: Seq<char>) -> Seq<SpanView> {
    seq![
        SpanView::plain("  "@),
        SpanView::new(name, Look::tint(Hue::Cyan).bold()),
        SpanView::plain(" "@),
        SpanView::new(argument, Look::tint(Hue::Yellow)),
    ]
}

/// The reference line of a command that takes none.
pub open spec fn help_with_description(name: Seq<char>, description: Seq<char>) -> Seq<
    SpanView,
> {
    seq![
        SpanView::plain("  "@),
        SpanView::new(name, Look::tint(Hue::Cyan).bold()),
        SpanView::plain("  "@),
        SpanView::new(description, Look::tint(Hue::White)),
    ]
}

/// The command reference, between two empty lines.
pub open spec fn help() -> Seq<Seq<SpanView>> {
    seq![
        Seq::empty(),
        seq![
            SpanView::new("Available commands:"@, Look::plain().bold().underlined()),
        ],
        help_with_argument("cd"@, "<directory>"@),
        help_with_description("ls"@, "List directory contents"@),
        help_with_argument("open"@, "<file>"@),
        help_with_argument("delete"@, "<file>"@),
        help_with_argument("create"@, "<file>"@),
        help_with_description("help"@, "Show this help"@),
        help_with_description("exit"@, "Exit the program"@),
        Seq::empty(),
    ]
}

/// A reminder of how a command is used, in yellow.
pub open spec fn usage(text: Seq<char>) -> Seq<SpanView> {
    seq![SpanView::new(text, Look::tint(Hue::Yellow))]
}

/// The complaint about a first word that is no command.
pub open spec fn unknown(word: Seq<char>) -> Seq<SpanView> {
    seq![
        SpanView::new("Unknown command"@, Look::tint(Hue::Red).bold()),
        SpanView::plain(": "@),
        SpanView::new(word, Look::tint(Hue::Yellow)),
    ]
}

/// A success marker and a confirmation.
pub open spec fn success(text: Seq<char>) -> Seq<SpanView> {
    seq![
        SpanView::new("✓"@, Look::tint(Hue::Green)),
        SpanView::plain(" "@),
        SpanView::new(text, Look::tint(Hue::Cyan)),
    ]
}

/// A failure marker and the message of an error.
pub open spec fn failure(message: Seq<char>) -> Seq<SpanView> {
    seq![
        SpanView::new("✗"@, Look::tint(Hue::Red)),
        SpanView::plain(" "@),
        SpanView::new("Error: "@ + message, Look::tint(Hue::Red)),
    ]
}

/// The heading of a listing.
pub open spec fn listing_heading(current: Seq<char>) -> Seq<SpanView> {
    seq![
        SpanView::new("📂"@, Look::tint(Hue::Cyan)),
        SpanView::plain(" "@),
        SpanView::new("Contents of "@ + current + ":"@, Look::plain().bold()),
    ]
}

/// One line of a listing: the name, indented by two blanks.
pub open spec fn listing_line(name: SpanView) -> Seq<SpanView> {
    seq![SpanView::plain("  "@), name]
}

/// A listing: the heading, then one line for each name.
pub open spec fn listing(current: Seq<char>, names: Seq<SpanView>) -> Seq<Seq<SpanView>> {
    seq![listing_heading(current)] + names.map_values(|name: SpanView| listing_line(name))
}

/// What is printed when a command has run its course. `current` is the
/// current directory after the command and `argument` is what the user
/// typed after the command's name.
pub open spec fn report(current: Seq<char>, argument: Seq<char>, progress: ProgressView) -> Seq<
    Seq<SpanView>,
> {
    match progress {
        ProgressView::Pending(_) => Seq::empty(),
        ProgressView::Failed(error) => seq![failure(error.message())],
        ProgressView::Succeeded(outcome) => match outcome {
            OutcomeView::Moved => seq![success("Changed directory to "@ + current)],
            OutcomeView::Created => seq![success("Created "@ + argument)],
            OutcomeView::Deleted => seq![success("Deleted "@ + argument)],
            OutcomeView::Opened => seq![success("Opened "@ + argument)],
            OutcomeView::Listed(names) => listing(current, names),
        },
    }
}

/// The shell back at the prompt, after printing `output`.
pub open spec fn prompting(current: Seq<char>, output: Seq<Seq<SpanView>>) -> (
    ShellView,
    StepView,
) {
    (
        ShellView { current, mode: ModeView::Prompting },
        StepView { output, action: ActionView::ReadLine(prompt(current)) },
    )
}

/// The shell waiting for the host's reply to `task`.
pub open spec fn working(current: Seq<char>, argument: Seq<char>, task: TaskView) -> (
    ShellView,
    StepView,
) {
    (
        ShellView { current, mode: ModeView::Working { argument, task } },
        StepView {
            output: Seq::empty(),
            action: ActionView::Perform { ask: task.stage.request(), path: task.target },
        },
    )
}

/// The shell at its end.
pub open spec fn terminated(current: Seq<char>) -> (ShellView, StepView) {
    (
        ShellView { current, mode: ModeView::Terminated },
        StepView { output: Seq::empty(), action: ActionView::Exit },
    )
}

/// What a command with an argument does: it starts its operation, or
/// prints how it is used if the argument is missing.
pub open spec fn handled(
    current: Seq<char>,
    operation: Operation,
    argument: Option<Seq<char>>,
    reminder: Seq<char>,
) -> (ShellView, StepView) {
    match argument {
        Some(argument) => working(current, argument, first_task(current, operation, argument)),
        None => prompting(current, seq![usage(reminder)]),
    }
}

/// What the shell does with a command at the prompt.
pub open spec fn dispatched(current: Seq<char>, command: CommandView) -> (ShellView, StepView) {
    match command {
        CommandView::Blank => prompting(current, Seq::empty()),
        CommandView::Cd(argument) => handled(
            current,
            Operation::Navigate,
            argument,
            "Usage: cd <directory>"@,
        ),
        CommandView::Ls => working(
            current,
            Seq::empty(),
            first_task(current, Operation::List, Seq::empty()),
        ),
        CommandView::Open(argument) => handled(
            current,
            Operation::Open,
            argument,
            "Usage: open <filename>"@,
        ),
        CommandView::Delete(argument) => handled(
            current,
            Operation::Delete,
            argument,
            "Usage: delete <filename>"@,
        ),
        CommandView::Create(argument) => handled(
            current,
            Operation::Create,
            argument,
            "Usage: create <filename>"@,
        ),
        CommandView::Help => prompting(current, help()),
        CommandView::Exit => terminated(current),
        CommandView::Unknown(word) => prompting(current, seq![unknown(word)]),
    }
}

/// What the shell does with the host's reply while a command is under
/// way: it asks for the next thing, or reports and goes back to the prompt.
pub open spec fn continued(
    current: Seq<char>,
    argument: Seq<char>,
    task: TaskView,
    reply: ReplyView,
) -> (ShellView, StepView) {
    let (moved, progress) = advanced(current, task, reply);
    match progress {
        ProgressView::Pending(following) => working(moved, argument, following),
        _ => prompting(moved, report(moved, argument, progress)),
    }
}

/// The session's first state and step: the title block and the command
/// reference are printed and the prompt is shown.
pub open spec fn launched(current: Seq<char>) -> (ShellView, StepView) {
    prompting(current, banner() + help())
}

/// Whether the shell, waiting as `mode` says, is waiting for `event`.
pub open spec fn awaited(mode: ModeView, event: EventView) -> bool {
    match mode {
        ModeView::Prompting => event is Line || event is EndOfInput,
        ModeView::Working { task, .. } => event matches EventView::Answer(reply) && answers(
            task.stage.request(),
            reply,
        ),
        ModeView::Terminated => false,
    }
}

/// The shell's state and step after `event`.
///
/// * At the prompt, a line is split into words and its command is run; the
///   end of input terminates the session.
/// * While a command is under way, the host's reply moves it on.
/// * A terminated shell stays terminated and prints nothing.
/// * An event that the shell is not waiting for changes nothing: the shell
///   prints nothing and repeats its last action.
pub open spec fn next(shell: ShellView, event: EventView) -> (ShellView, StepView) {
    match shell.mode {
        ModeView::Terminated => terminated(shell.current),
        ModeView::Prompting => match event {
            EventView::Line(line) => dispatched(shell.current, parsed(words(line))),
            EventView::EndOfInput => terminated(shell.current),
            EventView::Answer(_) => prompting(shell.current, Seq::empty()),
        },
        ModeView::Working { argument, task } => match event {
            EventView::Answer(reply) => continued(shell.current, argument, task, reply),
            _ => working(shell.current, argument, task),
        },
    }
}

/// No lines at all.
fn no_lines() -> (lines: Vec<Vec<Span>>)
    ensures
        lines.deep_view() == Seq::<Seq<SpanView>>::empty(),
{
    let lines: Vec<Vec<Span>> = Vec::new();
    assert(lines.deep_view() == Seq::<Seq<SpanView>>::empty());
    lines
}

/// A line without a span.
fn empty_line() -> (line: Vec<Span>)
    ensures
        line.deep_view() == Seq::<SpanView>::empty(),
{
    let line: Vec<Span> = Vec::new();
    assert(line.deep_view() == Seq::<SpanView>::empty());
    line
}

/// A line of one span.
fn line_of_one(a: Span) -> (line: Vec<Span>)
    ensures
        line.deep_view() == seq![a.deep_view()],
{
    let line = vec![a];
    assert(line.deep_view() == seq![a.deep_view()]);
    line
}

/// A line of three spans.
fn line_of_three(a: Span, b: Span, c: Span) -> (line: Vec<Span>)
    ensures
        line.deep_view() == seq![a.deep_view(), b.deep_view(), c.deep_view()],
{
    let line = vec![a, b, c];
    assert(line.deep_view() == seq![a.deep_view(), b.deep_view(), c.deep_view()]);
    line
}

/// A line of four spans.
fn line_of_four(a: Span, b: Span, c: Span, d: Span) -> (line: Vec<Span>)
    ensures
        line.deep_view() == seq![a.deep_view(), b.deep_view(), c.deep_view(), d.deep_view()],
{
    let line = vec![a, b, c, d];
    assert(line.deep_view() == seq![
        a.deep_view(),
        b.deep_view(),
        c.deep_view(),
        d.deep_view(),
    ]);
    line
}

/// Adds `line` at the end of `lines`.
fn push_line(lines: &mut Vec<Vec<Span>>, line: Vec<Span>)
    ensures
        final(lines).deep_view() == old(lines).deep_view().push(line.deep_view()),
{
    lines.push(line);
    assert(lines.deep_view() == old(lines).deep_view().push(line.deep_view()));
}

/// The prompt for the directory `current`.
fn prompt_line(current: &str) -> (line: Vec<Span>)
    ensures
        line.deep_view() == prompt(current@),
{
    line_of_four(
        Span::new("➤", Look::tint(Hue::Green).bold()),
        Span::plain(" "),
        Span::new(current, Look::tint(Hue::Cyan)),
        Span::plain(" "),
    )
}

/// The rule under the title.
fn rule_text() -> (text: String)
    ensures
        text@ == rule(),
{
    let mut text = String::new();
    let mut n: usize = 0;
    while n < 40
        invariant
            n <= 40,
            text@ == Seq::new(n as nat, |i: int| '━'),
        decreases 40 - n,
    {
        proof {
            reveal_strlit("━");
            assert("━"@ == seq!['━']);
        }
        text.append("━");
        n += 1;
    }
    text
}

/// The title block that opens a session.
fn banner_lines() -> (lines: Vec<Vec<Span>>)
    ensures
        lines.deep_view() == banner(),
{
    let mut lines = no_lines();
    push_line(
        &mut lines,
        line_of_one(
            Span::new(" Rust File Explorer ", Look::tint(Hue::Black).on(Hue::Cyan).bold()),
        ),
    );
    let rule = rule_text();
    push_line(&mut lines, line_of_one(Span::new(rule.as_str(), Look::tint(Hue::Cyan))));
    lines
}

/// The reference line of a command that takes an argument.
fn help_argument_line(name: &str, argument: &str) -> (line: Vec<Span>)
    ensures
        line.deep_view() == help_with_argument(name@, argument@),
{
    line_of_four(
        Span::plain("  "),
        Span::new(name, Look::tint(Hue::Cyan).bold()),
        Span::plain(" "),
        Span::new(argument, Look::tint(Hue::Yellow)),
    )
}

/// The reference line of a command that takes none.
fn help_description_line(name: &str, description: &str) -> (line: Vec<Span>)
    ensures
        line.deep_view() == help_with_description(name@, description@),
{
    line_of_four(
        Span::plain("  "),
        Span::new(name, Look::tint(Hue::Cyan).bold()),
        Span::plain("  "),
        Span::new(description, Look::tint(Hue::White)),
    )
}

/// The command reference.
pub fn help_text() -> (lines: Vec<Vec<Span>>)
    ensures
        lines.deep_view() == help(),
{
    let mut lines = no_lines();
    push_line(&mut lines, empty_line());
    push_line(
        &mut lines,
        line_of_one(Span::new("Available commands:", Look::plain().bold().underlined())),
    );
    push_line(&mut lines, help_argument_line("cd", "<directory>"));
    push_line(&mut lines, help_description_line("ls", "List directory contents"));
    push_line(&mut lines, help_argument_line("open", "<file>"));
    push_line(&mut lines, help_argument_line("delete", "<file>"));
    push_line(&mut lines, help_argument_line("create", "<file>"));
    push_line(&mut lines, help_description_line("help", "Show this help"));
    push_line(&mut lines, help_description_line("exit", "Exit the program"));
    push_line(&mut lines, empty_line());
    lines
}

/// A success marker and a confirmation.
fn success_line(text: &str) -> (line: Vec<Span>)
    ensures
        line.deep_view() == success(text@),
{
    line_of_three(
        Span::new("✓", Look::tint(Hue::Green)),
        Span::plain(" "),
        Span::new(text, Look::tint(Hue::Cyan)),
    )
}

/// A failure marker and the message of `error`.
fn failure_line(error: &ExplorerError) -> (line: Vec<Span>)
    ensures
        line.deep_view() == failure(error.deep_view().message()),
{
    let text = String::from_str("Error: ").concat(error.message().as_str());
    line_of_three(
        Span::new("✗", Look::tint(Hue::Red)),
        Span::plain(" "),
        Span::new(text.as_str(), Look::tint(Hue::Red)),
    )
}

/// A listing of `names` in the directory `current`.
fn listing_lines(current: &str, names: Vec<Span>) -> (lines: Vec<Vec<Span>>)
    ensures
        lines.deep_view() == listing(current@, names.deep_view()),
{
    let ghost shown = |name: SpanView| listing_line(name);
    let mut heading = String::from_str("Contents of ").concat(current);
    heading.append(":");
    let mut lines = no_lines();
    push_line(
        &mut lines,
        line_of_three(
            Span::new("📂", Look::tint(Hue::Cyan)),
            Span::plain(" "),
            Span::new(heading.as_str(), Look::plain().bold()),
        ),
    );
    let ghost all = names.deep_view();
    let mut i: usize = 0;
    while i < names.len()
        invariant
            i <= names.len(),
            all == names.deep_view(),
            shown == |name: SpanView| listing_line(name),
            lines.deep_view() == seq![listing_heading(current@)] + all.take(i as int).map_values(
                shown,
            ),
        decreases names.len() - i,
    {
        let name = &names[i];
        let line = vec![Span::plain("  "), Span::new(name.text.as_str(), name.look)];
        assert(line.deep_view() == listing_line(all[i as int]));
        proof {
            assert(all.take(i + 1).map_values(shown) == all.take(i as int).map_values(shown).push(
                listing_line(all[i as int]),
            ));
        }
        push_line(&mut lines, line);
        i += 1;
    }
    proof {
        assert(all.take(names.len() as int) == all);
    }
    lines
}

/// What is printed when a command has run its course.
fn report_lines(current: &str, argument: &str, progress: Progress) -> (lines: Vec<Vec<Span>>)
    ensures
        lines.deep_view() == report(current@, argument@, progress.deep_view()),
{
    let mut lines = no_lines();
    match progress {
        Progress::Pending(_) => {},
        Progress::Failed(error) => {
            push_line(&mut lines, failure_line(&error));
        },
        Progress::Succeeded(outcome) => {
            let text = match outcome {
                Outcome::Moved => String::from_str("Changed directory to ").concat(current),
                Outcome::Created => String::from_str("Created ").concat(argument),
                Outcome::Deleted => String::from_str("Deleted ").concat(argument),
                Outcome::Opened => String::from_str("Opened ").concat(argument),
                Outcome::Listed(names) => {
                    return listing_lines(current, names);
                },
            };
            push_line(&mut lines, success_line(text.as_str()));
        },
    }
    lines
}

impl Shell {
    /// Opens a session in the directory `current_dir`, which the host has
    /// read from the system.
    pub fn launch(current_dir: String) -> (start: (Shell, Step))
        ensures
            (start.0@, start.1.deep_view()) == launched(current_dir@),
    {
        let mut shell = Shell { explorer: FileExplorer::new(current_dir), mode: Mode::Prompting };
        let mut output = banner_lines();
        let mut reference = help_text();
        let ghost first = output.deep_view();
        let ghost second = reference.deep_view();
        output.append(&mut reference);
        assert(output.deep_view() == first + second);
        let step = shell.back_to_prompt(output);
        (shell, step)
    }

    /// The state of the command loop.
    pub fn phase(&self) -> (phase: Phase)
        ensures
            phase == self@.phase(),
    {
        match self.mode {
            Mode::Terminated => Phase::Terminated,
            _ => Phase::Running,
        }
    }

    /// The current directory.
    pub fn current_dir(&self) -> (dir: &str)
        ensures
            dir@ == self@.current,
    {
        self.explorer.current_dir()
    }

    /// Goes back to the prompt after printing `output`.
    fn back_to_prompt(&mut self, output: Vec<Vec<Span>>) -> (step: Step)
        ensures
            (final(self)@, step.deep_view()) == prompting(old(self)@.current, output.deep_view()),
    {
        self.mode = Mode::Prompting;
        Step { output, action: Action::ReadLine(prompt_line(self.explorer.current_dir())) }
    }

    /// Hands `task` to the host.
    fn hand_over(&mut self, argument: String, task: Task) -> (step: Step)
        ensures
            (final(self)@, step.deep_view()) == working(
                old(self)@.current,
                argument@,
                task.deep_view(),
            ),
    {
        let output = no_lines();
        let action = Action::Perform { ask: task.stage.request(), path: task.target.clone() };
        self.mode = Mode::Working { argument, task };
        Step { output, action }
    }

    /// Ends the session.
    fn terminate(&mut self) -> (step: Step)
        ensures
            (final(self)@, step.deep_view()) == terminated(old(self)@.current),
    {
        let output = no_lines();
        self.mode = Mode::Terminated;
        Step { output, action: Action::Exit }
    }

    /// Prints how a command is used.
    fn remind(&mut self, reminder: &str) -> (step: Step)
        ensures
            (final(self)@, step.deep_view()) == prompting(
                old(self)@.current,
                seq![usage(reminder@)],
            ),
    {
        let mut output = no_lines();
        push_line(&mut output, line_of_one(Span::new(reminder, Look::tint(Hue::Yellow))));
        self.back_to_prompt(output)
    }

    /// `cd`: starts the navigation, or prints how `cd` is used.
    fn handle_cd(&mut self, argument: Option<String>) -> (step: Step)
        ensures
            (final(self)@, step.deep_view()) == handled(
                old(self)@.current,
                Operation::Navigate,
                argument.deep_view(),
                "Usage: cd <directory>"@,
            ),
    {
        match argument {
            Some(path) => {
                let task = self.explorer.change_directory(path.as_str());
                self.hand_over(path, task)
            },
            None => self.remind("Usage: cd <directory>"),
        }
    }

    /// `ls`: starts the enumeration of the current directory.
    fn handle_ls(&mut self) -> (step: Step)
        ensures
            (final(self)@, step.deep_view()) == working(
                old(self)@.current,
                Seq::empty(),
                first_task(old(self)@.current, Operation::List, Seq::empty()),
            ),
    {
        let task = self.explorer.read_directory();
        self.hand_over(String::new(), task)
    }

    /// `open`: starts the launch, or prints how `open` is used.
    fn handle_open(&mut self, argument: Option<String>) -> (step: Step)
        ensures
            (final(self)@, step.deep_view()) == handled(
                old(self)@.current,
                Operation::Open,
                argument.deep_view(),
                "Usage: open <filename>"@,
            ),
    {
        match argument {
            Some(filename) => {
                let task = self.explorer.open_file(filename.as_str());
                self.hand_over(filename, task)
            },
            None => self.remind("Usage: open <filename>"),
        }
    }

    /// `delete`: starts the deletion, or prints how `delete` is used.
    fn handle_delete(&mut self, argument: Option<String>) -> (step: Step)
        ensures
            (final(self)@, step.deep_view()) == handled(
                old(self)@.current,
                Operation::Delete,
                argument.deep_view(),
                "Usage: delete <filename>"@,
            ),
    {
        match argument {
            Some(path) => {
                let task = self.explorer.delete_path(path.as_str());
                self.hand_over(path, task)
            },
            None => self.remind("Usage: delete <filename>"),
        }
    }

    /// `create`: starts the creation, or prints how `create` is used.
    fn handle_create(&mut self, argument: Option<String>) -> (step: Step)
        ensures
            (final(self)@, step.deep_view()) == handled(
                old(self)@.current,
                Operation::Create,
                argument.deep_view(),
                "Usage: create <filename>"@,
            ),
    {
        match argument {
            Some(filename) => {
                let task = self.explorer.create_file(filename.as_str());
                self.hand_over(filename, task)
            },
            None => self.remind("Usage: create <filename>"),
        }
    }

    /// Runs `command` at the prompt.
    fn dispatch(&mut self, command: Command) -> (step: Step)
        ensures
            (final(self)@, step.deep_view()) == dispatched(
                old(self)@.current,
                command.deep_view(),
            ),
    {
        match command {
            Command::Blank => {
                let output = no_lines();
                self.back_to_prompt(output)
            },
            Command::Cd(argument) => self.handle_cd(argument),
            Command::Ls => self.handle_ls(),
            Command::Open(argument) => self.handle_open(argument),
            Command::Delete(argument) => self.handle_delete(argument),
            Command::Create(argument) => self.handle_create(argument),
            Command::Help => self.back_to_prompt(help_text()),
            Command::Exit => self.terminate(),
            Command::Unknown(word) => {
                let mut output = no_lines();
                push_line(
                    &mut output,
                    line_of_three(
                        Span::new("Unknown command", Look::tint(Hue::Red).bold()),
                        Span::plain(": "),
                        Span::new(word.as_str(), Look::tint(Hue::Yellow)),
                    ),
                );
                self.back_to_prompt(output)
            },
        }
    }

    /// Moves the command under way on with the host's `reply`.
    fn resume(&mut self, argument: String, task: Task, reply: Reply) -> (step: Step)
        ensures
            (final(self)@, step.deep_view()) == continued(
                old(self)@.current,
                argument@,
                task.deep_view(),
                reply.deep_view(),
            ),
    {
        let progress = self.explorer.advance(task, reply);
        match progress {
            Progress::Pending(following) => self.hand_over(argument, following),
            finished => {
                let output = report_lines(
                    self.explorer.current_dir(),
                    argument.as_str(),
                    finished,
                );
                self.back_to_prompt(output)
            },
        }
    }

    /// Takes one event from the host and answers with what to print and
    /// what to do next.
    pub fn step(&mut self, event: Event) -> (step: Step)
        ensures
            (final(self)@, step.deep_view()) == next(old(self)@, event.deep_view()),
    {
        let mut mode = Mode::Terminated;
        core::mem::swap(&mut self.mode, &mut mode);
        match mode {
            Mode::Terminated => self.terminate(),
            Mode::Prompting => match event {
                Event::Line(line) => {
                    let command = parse_line(line.as_str());
                    self.dispatch(command)
                },
                Event::EndOfInput => self.terminate(),
                Event::Answer(_) => {
                    let output = no_lines();
                    self.back_to_prompt(output)
                },
            },
            Mode::Working { argument, task } => match event {
                Event::Answer(reply) => self.resume(argument, task, reply),
                _ => self.hand_over(argument, task),
            },
        }
    }
}

/// A line without a word changes nothing: nothing is printed and the
/// prompt is shown again.
pub proof fn law_blank_line_reprompts(current: Seq<char>, line: Seq<char>)
    requires
        forall|k: int| 0 <= k < line.len() ==> is_space(#[trigger] line[k]),
    ensures
        next(ShellView { current, mode: ModeView::Prompting }, EventView::Line(line)) == prompting(
            current,
            Seq::empty(),
        ),
{
    law_no_words_iff_blank(line);
}

/// `cd` to a path that is not an existing directory: the shell asks
/// whether the resolved path is a directory, and on the answer "no" prints
/// the failure line that names the path and is back at the prompt in the
/// directory where it was.
pub proof fn law_cd_to_missing_directory(current: Seq<char>, line: Seq<char>, path: Seq<char>)
    requires
        parsed(words(line)) == CommandView::Cd(Some(path)),
    ensures
        ({
            let target = resolved(current, path);
            let (asking, first) = next(
                ShellView { current, mode: ModeView::Prompting },
                EventView::Line(line),
            );
            let (after, second) = next(asking, EventView::Answer(ReplyView::Flag(false)));
            &&& first == StepView {
                output: Seq::empty(),
                action: ActionView::Perform { ask: Ask::IsDirectory, path: target },
            }
            &&& after == ShellView { current, mode: ModeView::Prompting }
            &&& second == StepView {
                output: seq![failure("Directory not found: "@ + target)],
                action: ActionView::ReadLine(prompt(current)),
            }
        }),
{
}

/// Going down and up again. At the prompt in `origin`, `cd path` is
/// answered by the host with "a directory", the canonical path `there` and
/// "entered"; then `cd ..` is answered with "a directory", `origin`, which
/// is the canonical path of `there/..` wherever `there` is a directory
/// that stands in `origin`, and "entered". The shell has then asked about
/// `path` resolved against `origin` and about `..` resolved against
/// `there`, has had the host enter `there` and `origin` in turn, and is
/// back at the prompt in `origin`.
pub proof fn law_there_and_back(
    origin: Seq<char>,
    there: Seq<char>,
    down: Seq<char>,
    up: Seq<char>,
    path: Seq<char>,
)
    requires
        parsed(words(down)) == CommandView::Cd(Some(path)),
        parsed(words(up)) == CommandView::Cd(Some(".."@)),
    ensures
        ({
            let yes = EventView::Answer(ReplyView::Flag(true));
            let done = EventView::Answer(ReplyView::Done);
            let start = ShellView { current: origin, mode: ModeView::Prompting };
            let (probing, first) = next(start, EventView::Line(down));
            let (resolving, _) = next(probing, yes);
            let (entering, second) = next(resolving, EventView::Answer(ReplyView::Path(there)));
            let (arrived, third) = next(entering, done);
            let (probing_back, fourth) = next(arrived, EventView::Line(up));
            let (resolving_back, _) = next(probing_back, yes);
            let (entering_back, fifth) = next(
                resolving_back,
                EventView::Answer(ReplyView::Path(origin)),
            );
            let (returned, last) = next(entering_back, done);
            &&& first.action == ActionView::Perform {
                ask: Ask::IsDirectory,
                path: resolved(origin, path),
            }
            &&& second.action == ActionView::Perform { ask: Ask::SetCurrentDir, path: there }
            &&& entering.current == origin
            &&& arrived == ShellView { current: there, mode: ModeView::Prompting }
            &&& third.output == seq![success("Changed directory to "@ + there)]
            &&& fourth.action == ActionView::Perform {
                ask: Ask::IsDirectory,
                path: resolved(there, ".."@),
            }
            &&& fifth.action == ActionView::Perform { ask: Ask::SetCurrentDir, path: origin }
            &&& entering_back.current == there
            &&& returned == start
            &&& last == StepView {
                output: seq![success("Changed directory to "@ + origin)],
                action: ActionView::ReadLine(prompt(origin)),
            }
        }),
{
}

/// `ls` has the host enumerate the current directory and prints a heading
/// and then one line for each enumerated entry with a readable name, in
/// the order of enumeration; the current directory stays as it was.
pub proof fn law_ls_lists_what_was_enumerated(
    current: Seq<char>,
    line: Seq<char>,
    entries: Seq<RawEntryView>,
)
    requires
        parsed(words(line)) == CommandView::Ls,
    ensures
        ({
            let (asking, first) = next(
                ShellView { current, mode: ModeView::Prompting },
                EventView::Line(line),
            );
            let (after, second) = next(asking, EventView::Answer(ReplyView::Entries(entries)));
            &&& first == StepView {
                output: Seq::empty(),
                action: ActionView::Perform { ask: Ask::ReadDir, path: current },
            }
            &&& (after, second) == prompting(current, listing(current, listed(entries)))
            &&& second.output.len() == 1 + listed(entries).len()
            &&& forall|i: int|
                0 <= i < listed(entries).len() ==> #[trigger] second.output[i + 1] == listing_line(
                    listed(entries)[i],
                )
        }),
{
}

/// Creating and listing. At the prompt in `current`, `create name` has the
/// host create `name` resolved against `current` and, once that is done,
/// confirms it; `ls` then has the host enumerate `current`. If the
/// enumeration holds an entry called `name`, one of the lines printed under
/// the heading shows `name`, and the shell is back where it started.
pub proof fn law_created_file_is_listed(
    current: Seq<char>,
    create: Seq<char>,
    list: Seq<char>,
    name: Seq<char>,
    entries: Seq<RawEntryView>,
)
    requires
        parsed(words(create)) == CommandView::Create(Some(name)),
        parsed(words(list)) == CommandView::Ls,
        exists|j: int| 0 <= j < entries.len() && (#[trigger] entries[j]).name == Some(name),
    ensures
        ({
            let start = ShellView { current, mode: ModeView::Prompting };
            let (creating, first) = next(start, EventView::Line(create));
            let (created, second) = next(creating, EventView::Answer(ReplyView::Done));
            let (listing, third) = next(created, EventView::Line(list));
            let (after, fourth) = next(listing, EventView::Answer(ReplyView::Entries(entries)));
            &&& first.action == ActionView::Perform {
                ask: Ask::CreateFile,
                path: resolved(current, name),
            }
            &&& second.output == seq![success("Created "@ + name)]
            &&& third.action == ActionView::Perform { ask: Ask::ReadDir, path: current }
            &&& exists|i: int|
                1 <= i < fourth.output.len() && (#[trigger] fourth.output[i]).len() == 2
                    && fourth.output[i][1].text == name
            &&& after == start
        }),
{
    law_listed_names(entries, name);
    let i = choose|i: int|
        0 <= i < listed(entries).len() && (#[trigger] listed(entries)[i]).text == name;
    let start = ShellView { current, mode: ModeView::Prompting };
    let creating = next(start, EventView::Line(create)).0;
    let created = next(creating, EventView::Answer(ReplyView::Done)).0;
    let listing = next(created, EventView::Line(list)).0;
    let printed = next(listing, EventView::Answer(ReplyView::Entries(entries))).1.output;
    assert(printed[i + 1] == listing_line(listed(entries)[i]));
    assert(printed[i + 1].len() == 2 && printed[i + 1][1].text == name);
}

/// Deleting and listing. At the prompt in `current`, `delete name` has the
/// host say whether `name`, resolved against `current`, is a directory,
/// then remove it as a tree or as a file, and confirms it once that is
/// done; `ls` then has the host enumerate `current`. If the enumeration
/// holds no entry called `name`, no line printed under the heading shows
/// `name`, and the shell is back where it started.
pub proof fn law_deleted_file_is_not_listed(
    current: Seq<char>,
    delete: Seq<char>,
    list: Seq<char>,
    name: Seq<char>,
    is_directory: bool,
    entries: Seq<RawEntryView>,
)
    requires
        parsed(words(delete)) == CommandView::Delete(Some(name)),
        parsed(words(list)) == CommandView::Ls,
        forall|j: int| 0 <= j < entries.len() ==> (#[trigger] entries[j]).name != Some(name),
    ensures
        ({
            let start = ShellView { current, mode: ModeView::Prompting };
            let (inspecting, first) = next(start, EventView::Line(delete));
            let (removing, second) = next(
                inspecting,
                EventView::Answer(ReplyView::Flag(is_directory)),
            );
            let (removed, third) = next(removing, EventView::Answer(ReplyView::Done));
            let (listing, fourth) = next(removed, EventView::Line(list));
            let (after, fifth) = next(listing, EventView::Answer(ReplyView::Entries(entries)));
            &&& first.action == ActionView::Perform {
                ask: Ask::IsDirectory,
                path: resolved(current, name),
            }
            &&& second.action == ActionView::Perform {
                ask: if is_directory {
                    Ask::RemoveDirAll
                } else {
                    Ask::RemoveFile
                },
                path: resolved(current, name),
            }
            &&& third.output == seq![success("Deleted "@ + name)]
            &&& fourth.action == ActionView::Perform { ask: Ask::ReadDir, path: current }
            &&& fifth.output.len() == 1 + listed(entries).len()
            &&& forall|i: int|
                1 <= i < fifth.output.len() ==> (#[trigger] fifth.output[i]).len() == 2
                    && fifth.output[i][1].text != name
            &&& after == start
        }),
{
    law_listed_names(entries, name);
    let printed = listing(current, listed(entries));
    assert forall|i: int| 1 <= i < printed.len() implies (#[trigger] printed[i]).len() == 2
        && printed[i][1].text != name by {
        assert(printed[i] == listing_line(listed(entries)[i - 1]));
        assert(listed(entries)[i - 1].text != name);
    }
}

/// The session ends in two ways only: at the prompt, by the command
/// `exit` or by the end of the input. No reply of the host, and so no
/// error, ends it, and once ended it stays ended and prints nothing.
pub proof fn law_termination(shell: ShellView, event: EventView)
    ensures
        next(shell, event).0.phase() == Phase::Terminated <==> {
            ||| shell.phase() == Phase::Terminated
            ||| shell.mode is Prompting && event is EndOfInput
            ||| shell.mode is Prompting && event is Line && parsed(words(event->Line_0)) is Exit
        },
        next(shell, event).0.phase() == Phase::Terminated ==> next(shell, event) == terminated(
            shell.current,
        ),
{
}

/// The current directory changes exactly in the step in which the host
/// reports having entered a directory for a navigation: it then becomes
/// the path that the host was asked to enter. In every other step,
/// whatever the event, it stays as it was.
pub proof fn law_moves_exactly_on_entering(shell: ShellView, event: EventView)
    ensures
        ({
            let entered = shell.mode matches ModeView::Working { task, .. } && task.stage
                == Stage::Entering && event == EventView::Answer(ReplyView::Done);
            &&& entered ==> next(shell, event).0.current == shell.mode->Working_task.target
            &&& !entered ==> next(shell, event).0.current == shell.current
        }),
{
}

/// A navigation that fails leaves everything where it was. Whether the
/// host finds no directory, cannot give its canonical path or cannot enter
/// it, the shell prints one failure line and is back at the prompt in the
/// directory where it was.
pub proof fn law_failed_navigation_changes_nothing(
    current: Seq<char>,
    line: Seq<char>,
    path: Seq<char>,
    canonical: Seq<char>,
    cause: Seq<char>,
)
    requires
        parsed(words(line)) == CommandView::Cd(Some(path)),
    ensures
        ({
            let target = resolved(current, path);
            let start = ShellView { current, mode: ModeView::Prompting };
            let failed = EventView::Answer(ReplyView::Failed(cause));
            let (probing, _) = next(start, EventView::Line(line));
            let (resolving, second) = next(probing, EventView::Answer(ReplyView::Flag(true)));
            let (unresolved, third) = next(resolving, failed);
            let (entering, fourth) = next(
                resolving,
                EventView::Answer(ReplyView::Path(canonical)),
            );
            let (refused, fifth) = next(entering, failed);
            &&& second == StepView {
                output: Seq::empty(),
                action: ActionView::Perform { ask: Ask::Canonicalize, path: target },
            }
            &&& (unresolved, third) == prompting(current, seq![failure(cause)])
            &&& fourth == StepView {
                output: Seq::empty(),
                action: ActionView::Perform { ask: Ask::SetCurrentDir, path: canonical },
            }
            &&& (refused, fifth) == prompting(current, seq![failure(cause)])
        }),
{
}

/// Whatever fails, the session goes on: when the host reports a failure
/// of the request under way, one failure line with the error's message is
/// printed and the prompt is shown in the directory where the shell was.
pub proof fn law_failures_are_reported(
    current: Seq<char>,
    argument: Seq<char>,
    task: TaskView,
    cause: Seq<char>,
)
    requires
        answers(task.stage.request(), ReplyView::Failed(cause)),
    ensures
        next(
            ShellView { current, mode: ModeView::Working { argument, task } },
            EventView::Answer(ReplyView::Failed(cause)),
        ) == prompting(
            current,
            seq![
                failure(
                    (ErrorView::IoError {
                        operation: task.stage.operation(),
                        path: task.target,
                        cause,
                    }).message(),
                ),
            ],
        ),
{
}

/// An event that the shell is not waiting for changes nothing and prints
/// nothing.
pub proof fn law_unexpected_events_change_nothing(shell: ShellView, event: EventView)
    requires
        !awaited(shell.mode, event),
    ensures
        next(shell, event).0 == shell,
        next(shell, event).1.output == Seq::<Seq<SpanView>>::empty(),
{
}

} // verus!
