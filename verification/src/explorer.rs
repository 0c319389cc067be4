//! The session state and the file operations.
//!
//! A [`FileExplorer`] holds the current directory. It never touches the
//! file system: each operation is a short conversation with the host. An
//! operation starts with a [`Task`], which names one thing for the host to
//! do ([`Ask`]) and the path to do it to. The host does it and reports a
//! [`Reply`]; [`FileExplorer::advance`] then decides how the operation goes
//! on: with another task, with success, or with an [`ExplorerError`].
//!
//! | operation | conversation |
//! |---|---|
//! | navigate | is it a directory? then ask for its canonical name, then enter that |
//! | create | create the file |
//! | delete | is it a directory? then remove the tree, else remove the file |
//! | open | launch the default application |
//! | list | read the directory |

use crate::path::{resolve, resolved};
use crate::style::{Hue, Look, Span, SpanView};
use vstd::prelude::*;
use vstd::string::*;

verus! {

/// The five things a user can do to the file system.
#[derive(Clone, Copy, Debug, PartialEq, Eq)]
pub enum Operation {
    Navigate,
    Create,
    Delete,
    Open,
    List,
}

/// Why an operation failed.
#[derive(Clone, Debug, PartialEq, Eq)]
pub enum ExplorerError {
    /// The target of a navigation is not an existing directory.
    NotFound { path: String },
    /// The host could not do what an operation needed. `path` is the path
    /// it was asked to act on and `cause` is what it reported.
    IoError { operation: Operation, path: String, cause: String },
}

/// The mathematical view of an [`ExplorerError`].
pub enum ErrorView {
    NotFound { path: Seq<char> },
    IoError { operation: Operation, path: Seq<char>, cause: Seq<char> },
}

impl DeepView for ExplorerError {
    type V = ErrorView;

    open spec fn deep_view(&self) -> ErrorView {
        match self {
            ExplorerError::NotFound { path } => ErrorView::NotFound { path: path@ },
            ExplorerError::IoError { operation, path, cause } => ErrorView::IoError {
                operation: *operation,
                path: path@,
                cause: cause@,
            },
        }
    }
}

impl ErrorView {
    /// The one-line message of the error.
    ///
    /// A missing directory is named. A failed creation, deletion or launch
    /// names what was attempted and on which path. A failure while entering
    /// a directory or while reading one is reported in the host's words.
    pub open spec fn message(self) -> Seq<char> {
        match self {
            ErrorView::NotFound { path } => "Directory not found: "@ + path,
            ErrorView::IoError { operation, path, cause } => match operation {
                Operation::Create => "Failed to create file: "@ + path,
                Operation::Delete => "Failed to delete: "@ + path,
                Operation::Open => "Failed to open: "@ + path,
                Operation::Navigate | Operation::List => cause,
            },
        }
    }
}

impl ExplorerError {
    /// The one-line message of the error.
    pub fn message(&self) -> (text: String)
        ensures
            text@ == self.deep_view().message(),
    {
        match self {
            ExplorerError::NotFound { path } => {
                String::from_str("Directory not found: ").concat(path.as_str())
            },
            ExplorerError::IoError { operation, path, cause } => match operation {
                Operation::Create => String::from_str("Failed to create file: ").concat(
                    path.as_str(),
                ),
                Operation::Delete => String::from_str("Failed to delete: ").concat(path.as_str()),
                Operation::Open => String::from_str("Failed to open: ").concat(path.as_str()),
                Operation::Navigate | Operation::List => cause.clone(),
            },
        }
    }
}

/// One thing the host can be asked to do to a path.
#[derive(Clone, Copy, Debug, PartialEq, Eq)]
pub enum Ask {
    /// Say whether the path is an existing directory.
    IsDirectory,
    /// Make the path the working directory of the process.
    SetCurrentDir,
    /// Give the canonical, absolute form of the path.
    Canonicalize,
    /// Create an empty file at the path.
    CreateFile,
    /// Remove the directory at the path with all it holds.
    RemoveDirAll,
    /// Remove the file at the path.
    RemoveFile,
    /// Open the path with the system's default application.
    Launch,
    /// Enumerate the directory at the path.
    ReadDir,
}

/// One entry as the host enumerated it: its name, if the name is valid
/// text, and whether the entry is a directory.
#[derive(Clone, Debug, PartialEq, Eq)]
pub struct RawEntry {
    pub name: Option<String>,
    pub is_dir: bool,
}

/// The mathematical view of a [`RawEntry`].
pub struct RawEntryView {
    pub name: Option<Seq<char>>,
    pub is_dir: bool,
}

impl DeepView for RawEntry {
    type V = RawEntryView;

    open spec fn deep_view(&self) -> RawEntryView {
        RawEntryView {
            name: match self.name {
                Some(name) => Some(name@),
                None => None,
            },
            is_dir: self.is_dir,
        }
    }
}

/// What the host reports after it was asked.
#[derive(Clone, Debug, PartialEq, Eq)]
pub enum Reply {
    /// The answer to [`Ask::IsDirectory`].
    Flag(bool),
    /// The request was carried out.
    Done,
    /// The answer to [`Ask::Canonicalize`].
    Path(String),
    /// The answer to [`Ask::ReadDir`], in the order of enumeration.
    Entries(Vec<RawEntry>),
    /// The request failed; the text is the system's description.
    Failed(String),
}

/// The mathematical view of a [`Reply`].
pub enum ReplyView {
    Flag(bool),
    Done,
    Path(Seq<char>),
    Entries(Seq<RawEntryView>),
    Failed(Seq<char>),
}

impl DeepView for Reply {
    type V = ReplyView;

    open spec fn deep_view(&self) -> ReplyView {
        match self {
            Reply::Flag(yes) => ReplyView::Flag(*yes),
            Reply::Done => ReplyView::Done,
            Reply::Path(path) => ReplyView::Path(path@),
            Reply::Entries(entries) => ReplyView::Entries(entries.deep_view()),
            Reply::Failed(cause) => ReplyView::Failed(cause@),
        }
    }
}

/// Where an operation stands.
#[derive(Clone, Copy, Debug, PartialEq, Eq)]
pub enum Stage {
    /// Navigation: is the target a directory?
    Probing,
    /// Navigation: asking for the canonical name of the target.
    Resolving,
    /// Navigation: entering the directory under its canonical name.
    Entering,
    /// Creation of a file.
    Creating,
    /// Deletion: is the target a directory?
    Inspecting,
    /// Deletion of a directory and its contents.
    RemovingTree,
    /// Deletion of a single file.
    RemovingFile,
    /// Launch of the default application.
    Opening,
    /// Enumeration of the current directory.
    Listing,
}

impl Stage {
    /// What the host is asked at this stage.
    pub open spec fn spec_request(self) -> Ask {
        match self {
            Stage::Probing | Stage::Inspecting => Ask::IsDirectory,
            Stage::Resolving => Ask::Canonicalize,
            Stage::Entering => Ask::SetCurrentDir,
            Stage::Creating => Ask::CreateFile,
            Stage::RemovingTree => Ask::RemoveDirAll,
            Stage::RemovingFile => Ask::RemoveFile,
            Stage::Opening => Ask::Launch,
            Stage::Listing => Ask::ReadDir,
        }
    }

    /// The operation that this stage belongs to.
    pub open spec fn spec_operation(self) -> Operation {
        match self {
            Stage::Probing | Stage::Resolving | Stage::Entering => Operation::Navigate,
            Stage::Creating => Operation::Create,
            Stage::Inspecting | Stage::RemovingTree | Stage::RemovingFile => Operation::Delete,
            Stage::Opening => Operation::Open,
            Stage::Listing => Operation::List,
        }
    }

    /// What the host is asked at this stage.
    #[verifier::when_used_as_spec(spec_request)]
    pub fn request(self) -> (ask: Ask)
        ensures
            ask == self.request(),
    {
        match self {
            Stage::Probing | Stage::Inspecting => Ask::IsDirectory,
            Stage::Resolving => Ask::Canonicalize,
            Stage::Entering => Ask::SetCurrentDir,
            Stage::Creating => Ask::CreateFile,
            Stage::RemovingTree => Ask::RemoveDirAll,
            Stage::RemovingFile => Ask::RemoveFile,
            Stage::Opening => Ask::Launch,
            Stage::Listing => Ask::ReadDir,
        }
    }

    /// The operation that this stage belongs to.
    #[verifier::when_used_as_spec(spec_operation)]
    pub fn operation(self) -> (operation: Operation)
        ensures
            operation == self.operation(),
    {
        match self {
            Stage::Probing | Stage::Resolving | Stage::Entering => Operation::Navigate,
            Stage::Creating => Operation::Create,
            Stage::Inspecting | Stage::RemovingTree | Stage::RemovingFile => Operation::Delete,
            Stage::Opening => Operation::Open,
            Stage::Listing => Operation::List,
        }
    }
}

/// An operation under way: its stage and the path it acts on.
#[derive(Clone, Debug, PartialEq, Eq)]
pub struct Task {
    pub stage: Stage,
    pub target: String,
}

/// The mathematical view of a [`Task`].
pub struct TaskView {
    pub stage: Stage,
    pub target: Seq<char>,
}

impl DeepView for Task {
    type V = TaskView;

    open spec fn deep_view(&self) -> TaskView {
        TaskView { stage: self.stage, target: self.target@ }
    }
}

/// What a finished operation achieved.
#[derive(Clone, Debug, PartialEq, Eq)]
pub enum Outcome {
    /// The current directory has changed.
    Moved,
    /// The file exists.
    Created,
    /// The file or directory is gone.
    Deleted,
    /// The default application was started.
    Opened,
    /// The names in the current directory, each in the look of its kind.
    Listed(Vec<Span>),
}

/// The mathematical view of an [`Outcome`].
pub enum OutcomeView {
    Moved,
    Created,
    Deleted,
    Opened,
    Listed(Seq<SpanView>),
}

impl DeepView for Outcome {
    type V = OutcomeView;

    open spec fn deep_view(&self) -> OutcomeView {
        match self {
            Outcome::Moved => OutcomeView::Moved,
            Outcome::Created => OutcomeView::Created,
            Outcome::Deleted => OutcomeView::Deleted,
            Outcome::Opened => OutcomeView::Opened,
            Outcome::Listed(names) => OutcomeView::Listed(names.deep_view()),
        }
    }
}

/// How an operation goes on after a reply.
#[derive(Clone, Debug, PartialEq, Eq)]
pub enum Progress {
    /// The host has more to do.
    Pending(Task),
    /// The operation is complete.
    Succeeded(Outcome),
    /// The operation has failed.
    Failed(ExplorerError),
}

/// The mathematical view of a [`Progress`].
pub enum ProgressView {
    Pending(TaskView),
    Succeeded(OutcomeView),
    Failed(ErrorView),
}

impl DeepView for Progress {
    type V = ProgressView;

    open spec fn deep_view(&self) -> ProgressView {
        match self {
            Progress::Pending(task) => ProgressView::Pending(task.deep_view()),
            Progress::Succeeded(outcome) => ProgressView::Succeeded(outcome.deep_view()),
            Progress::Failed(error) => ProgressView::Failed(error.deep_view()),
        }
    }
}

/// The look of a directory's name in a listing: bold blue.
pub open spec fn directory_look() -> Look {
    Look::tint(Hue::Blue).bold()
}

/// The look of any other name in a listing: yellow.
pub open spec fn file_look() -> Look {
    Look::tint(Hue::Yellow)
}

/// The listed form of one enumerated entry: its name in the look of its
/// kind, or nothing if the name is not valid text.
pub open spec fn listed_entry(entry: RawEntryView) -> Option<SpanView> {
    match entry.name {
        Some(name) => Some(
            SpanView::new(name, if entry.is_dir {
                directory_look()
            } else {
                file_look()
            }),
        ),
        None => None,
    }
}

/// The listing of what the host enumerated: the entries with a readable
/// name, in the order of enumeration.
pub open spec fn listed(entries: Seq<RawEntryView>) -> Seq<SpanView> {
    entries.filter_map(|entry: RawEntryView| listed_entry(entry))
}

/// The task that an operation starts with, when the current directory is
/// `current`. Listing acts on the current directory itself; every other
/// operation acts on its argument, resolved against the current directory.
pub open spec fn first_task(current: Seq<char>, operation: Operation, argument: Seq<char>)
    -> TaskView {
    match operation {
        Operation::Navigate => TaskView {
            stage: Stage::Probing,
            target: resolved(current, argument),
        },
        Operation::Create => TaskView {
            stage: Stage::Creating,
            target: resolved(current, argument),
        },
        Operation::Delete => TaskView {
            stage: Stage::Inspecting,
            target: resolved(current, argument),
        },
        Operation::Open => TaskView { stage: Stage::Opening, target: resolved(current, argument) },
        Operation::List => TaskView { stage: Stage::Listing, target: current },
    }
}

/// Whether `reply` is an answer that the host can give to `ask`.
pub open spec fn answers(ask: Ask, reply: ReplyView) -> bool {
    match ask {
        Ask::IsDirectory => reply is Flag,
        Ask::Canonicalize => reply is Path || reply is Failed,
        Ask::ReadDir => reply is Entries || reply is Failed,
        Ask::SetCurrentDir | Ask::CreateFile | Ask::RemoveDirAll | Ask::RemoveFile | Ask::Launch =>
            reply is Done || reply is Failed,
    }
}

/// The current directory and the progress after `reply` has come in for
/// `task`, when the current directory was `current`.
///
/// * Navigation fails with `NotFound` if the target is not a directory.
///   Otherwise the host is asked for the canonical path of the target and
///   then to enter the directory under that path. The canonical path
///   becomes the current directory when, and only when, the host reports
///   that it has entered it: the current directory is always the one that
///   the process was last put in.
/// * Deletion removes a directory with its contents and anything else as
///   a single file.
/// * Creation, launch and enumeration take one request each.
/// * A failure that the host reports ends the operation with an `IoError`
///   that holds the operation, the path and the host's words.
/// * Nothing else changes the current directory; a navigation that fails
///   at any request leaves it, and the process, where they were.
/// * A reply that does not answer the task's request changes nothing: the
///   task stays pending.
pub open spec fn advanced(current: Seq<char>, task: TaskView, reply: ReplyView) -> (
    Seq<char>,
    ProgressView,
) {
    let target = task.target;
    let unmoved = |progress: ProgressView| (current, progress);
    let next = |stage: Stage| ProgressView::Pending(TaskView { stage, target });
    match reply {
        ReplyView::Flag(is_directory) => match task.stage {
            Stage::Probing => if is_directory {
                unmoved(next(Stage::Resolving))
            } else {
                unmoved(ProgressView::Failed(ErrorView::NotFound { path: target }))
            },
            Stage::Inspecting => if is_directory {
                unmoved(next(Stage::RemovingTree))
            } else {
                unmoved(next(Stage::RemovingFile))
            },
            _ => unmoved(ProgressView::Pending(task)),
        },
        ReplyView::Done => match task.stage {
            Stage::Entering => (target, ProgressView::Succeeded(OutcomeView::Moved)),
            Stage::Creating => unmoved(ProgressView::Succeeded(OutcomeView::Created)),
            Stage::RemovingTree | Stage::RemovingFile => unmoved(
                ProgressView::Succeeded(OutcomeView::Deleted),
            ),
            Stage::Opening => unmoved(ProgressView::Succeeded(OutcomeView::Opened)),
            _ => unmoved(ProgressView::Pending(task)),
        },
        ReplyView::Path(canonical) => match task.stage {
            Stage::Resolving => unmoved(
                ProgressView::Pending(TaskView { stage: Stage::Entering, target: canonical }),
            ),
            _ => unmoved(ProgressView::Pending(task)),
        },
        ReplyView::Entries(entries) => match task.stage {
            Stage::Listing => unmoved(
                ProgressView::Succeeded(OutcomeView::Listed(listed(entries))),
            ),
            _ => unmoved(ProgressView::Pending(task)),
        },
        ReplyView::Failed(cause) => match task.stage {
            Stage::Probing | Stage::Inspecting => unmoved(ProgressView::Pending(task)),
            _ => unmoved(
                ProgressView::Failed(
                    ErrorView::IoError { operation: task.stage.operation(), path: target, cause },
                ),
            ),
        },
    }
}

/// The session state: the current directory.
#[derive(Clone, Debug, PartialEq, Eq)]
pub struct FileExplorer {
    current_dir: String,
}

impl View for FileExplorer {
    type V = Seq<char>;

    closed spec fn view(&self) -> Seq<char> {
        self.current_dir@
    }
}

impl FileExplorer {
    /// A session whose current directory is `current_dir`, which the host
    /// has read from the system.
    pub fn new(current_dir: String) -> (explorer: FileExplorer)
        ensures
            explorer@ == current_dir@,
    {
        FileExplorer { current_dir }
    }

    /// The current directory.
    pub fn current_dir(&self) -> (dir: &str)
        ensures
            dir@ == self@,
    {
        self.current_dir.as_str()
    }

    /// The task with the given stage for `path`, resolved against the
    /// current directory.
    fn task_for(&self, stage: Stage, path: &str) -> (task: Task)
        ensures
            task.deep_view() == (TaskView { stage, target: resolved(self@, path@) }),
    {
        Task { stage, target: resolve(self.current_dir.as_str(), path) }
    }

    /// Starts the navigation to `path`.
    pub fn change_directory(&self, path: &str) -> (task: Task)
        ensures
            task.deep_view() == first_task(self@, Operation::Navigate, path@),
    {
        self.task_for(Stage::Probing, path)
    }

    /// Starts the creation of the file `filename`.
    pub fn create_file(&self, filename: &str) -> (task: Task)
        ensures
            task.deep_view() == first_task(self@, Operation::Create, filename@),
    {
        self.task_for(Stage::Creating, filename)
    }

    /// Starts the deletion of `path`.
    pub fn delete_path(&self, path: &str) -> (task: Task)
        ensures
            task.deep_view() == first_task(self@, Operation::Delete, path@),
    {
        self.task_for(Stage::Inspecting, path)
    }

    /// Starts the launch of the default application for `filename`.
    pub fn open_file(&self, filename: &str) -> (task: Task)
        ensures
            task.deep_view() == first_task(self@, Operation::Open, filename@),
    {
        self.task_for(Stage::Opening, filename)
    }

    /// Starts the enumeration of the current directory.
    pub fn read_directory(&self) -> (task: Task)
        ensures
            task.deep_view() == first_task(self@, Operation::List, Seq::empty()),
    {
        Task { stage: Stage::Listing, target: self.current_dir.clone() }
    }

    /// The listing of what the host enumerated: every readable name, a
    /// directory's in bold blue and any other in yellow; entries without a
    /// readable name are left out.
    pub fn list_files_with_color(entries: &Vec<RawEntry>) -> (names: Vec<Span>)
        ensures
            names.deep_view() == listed(entries.deep_view()),
    {
        let ghost raw = entries.deep_view();
        let ghost pick = |entry: RawEntryView| listed_entry(entry);
        let mut names: Vec<Span> = Vec::new();
        let mut i: usize = 0;
        proof {
            assert(names.deep_view() == Seq::<SpanView>::empty());
        }
        while i < entries.len()
            invariant
                i <= entries.len(),
                raw == entries.deep_view(),
                pick == |entry: RawEntryView| listed_entry(entry),
                names.deep_view() == raw.take(i as int).filter_map(pick),
            decreases entries.len() - i,
        {
            proof {
                raw.lemma_filter_map_take_succ(pick, i as int);
            }
            let entry = &entries[i];
            match &entry.name {
                Some(name) => {
                    let look = if entry.is_dir {
                        Look::tint(Hue::Blue).bold()
                    } else {
                        Look::tint(Hue::Yellow)
                    };
                    let span = Span::new(name.as_str(), look);
                    let ghost before = names.deep_view();
                    names.push(span);
                    assert(names.deep_view() == before.push(span.deep_view()));
                },
                None => {},
            }
            i += 1;
        }
        proof {
            assert(raw.take(entries.len() as int) == raw);
        }
        names
    }

    /// Takes the host's reply to `task` and decides how the operation goes
    /// on.
    pub fn advance(&mut self, task: Task, reply: Reply) -> (progress: Progress)
        ensures
            (final(self)@, progress.deep_view()) == advanced(
                old(self)@,
                task.deep_view(),
                reply.deep_view(),
            ),
    {
        let Task { stage, target } = task;
        match reply {
            Reply::Flag(is_directory) => match stage {
                Stage::Probing => if is_directory {
                    Progress::Pending(Task { stage: Stage::Resolving, target })
                } else {
                    Progress::Failed(ExplorerError::NotFound { path: target })
                },
                Stage::Inspecting => if is_directory {
                    Progress::Pending(Task { stage: Stage::RemovingTree, target })
                } else {
                    Progress::Pending(Task { stage: Stage::RemovingFile, target })
                },
                _ => Progress::Pending(Task { stage, target }),
            },
            Reply::Done => match stage {
                Stage::Entering => {
                    self.current_dir = target;
                    Progress::Succeeded(Outcome::Moved)
                },
                Stage::Creating => Progress::Succeeded(Outcome::Created),
                Stage::RemovingTree | Stage::RemovingFile => Progress::Succeeded(Outcome::Deleted),
                Stage::Opening => Progress::Succeeded(Outcome::Opened),
                _ => Progress::Pending(Task { stage, target }),
            },
            Reply::Path(canonical) => match stage {
                Stage::Resolving => Progress::Pending(
                    Task { stage: Stage::Entering, target: canonical },
                ),
                _ => Progress::Pending(Task { stage, target }),
            },
            Reply::Entries(entries) => match stage {
                Stage::Listing => Progress::Succeeded(
                    Outcome::Listed(FileExplorer::list_files_with_color(&entries)),
                ),
                _ => Progress::Pending(Task { stage, target }),
            },
            Reply::Failed(cause) => match stage {
                Stage::Probing | Stage::Inspecting => Progress::Pending(Task { stage, target }),
                _ => Progress::Failed(
                    ExplorerError::IoError { operation: stage.operation(), path: target, cause },
                ),
            },
        }
    }
}

/// Navigating to a path that is not an existing directory fails with
/// `NotFound`, which names the resolved path, and leaves the current
/// directory as it was.
pub proof fn law_missing_directory_is_not_found(current: Seq<char>, path: Seq<char>)
    ensures
        advanced(
            current,
            first_task(current, Operation::Navigate, path),
            ReplyView::Flag(false),
        ) == (current, ProgressView::Failed(ErrorView::NotFound { path: resolved(current, path) })),
{
}

/// The current directory changes exactly in the step in which the host
/// reports having entered a directory. It then becomes the path that the
/// host was asked to enter, and the navigation has succeeded. In every
/// other step it stays as it was and no navigation succeeds.
pub proof fn law_moves_exactly_on_entering(current: Seq<char>, task: TaskView, reply: ReplyView)
    ensures
        task.stage == Stage::Entering && reply == ReplyView::Done ==> advanced(
            current,
            task,
            reply,
        ) == (task.target, ProgressView::Succeeded(OutcomeView::Moved)),
        !(task.stage == Stage::Entering && reply == ReplyView::Done) ==> {
            &&& advanced(current, task, reply).0 == current
            &&& advanced(current, task, reply).1 != ProgressView::Succeeded(OutcomeView::Moved)
        },
{
}

/// The working directory of the process after the host has answered
/// `reply` to `task`, when it was `process` before: the host moves the
/// process when it carries out a request to set the working directory, and
/// at no other time.
pub open spec fn process_after(process: Seq<char>, task: TaskView, reply: ReplyView) -> Seq<char> {
    if task.stage.request() == Ask::SetCurrentDir && reply == ReplyView::Done {
        task.target
    } else {
        process
    }
}

/// The current directory and the working directory of the process stay
/// together: if they are the same before a reply, they are the same after
/// it, whether the operation goes on, succeeds or fails.
pub proof fn law_directory_stays_in_step_with_the_process(
    current: Seq<char>,
    task: TaskView,
    reply: ReplyView,
)
    ensures
        advanced(current, task, reply).0 == process_after(current, task, reply),
{
}

/// What a navigation asks of the host, and in which order: whether the
/// target is a directory; then its canonical path; then to enter the
/// directory under that path. It fails without a further request, and
/// without a change, as soon as the target is no directory or the host
/// reports a failure.
pub proof fn law_navigation_resolves_before_it_enters(
    current: Seq<char>,
    path: Seq<char>,
    canonical: Seq<char>,
    cause: Seq<char>,
)
    ensures
        ({
            let target = resolved(current, path);
            let probing = first_task(current, Operation::Navigate, path);
            let resolving = TaskView { stage: Stage::Resolving, target };
            let entering = TaskView { stage: Stage::Entering, target: canonical };
            let refused = |failed: TaskView|
                (
                    current,
                    ProgressView::Failed(
                        ErrorView::IoError {
                            operation: Operation::Navigate,
                            path: failed.target,
                            cause,
                        },
                    ),
                );
            &&& probing == TaskView { stage: Stage::Probing, target }
            &&& advanced(current, probing, ReplyView::Flag(true)) == (
                current,
                ProgressView::Pending(resolving),
            )
            &&& advanced(current, resolving, ReplyView::Path(canonical)) == (
                current,
                ProgressView::Pending(entering),
            )
            &&& advanced(current, resolving, ReplyView::Failed(cause)) == refused(resolving)
            &&& advanced(current, entering, ReplyView::Done) == (
                canonical,
                ProgressView::Succeeded(OutcomeView::Moved),
            )
            &&& advanced(current, entering, ReplyView::Failed(cause)) == refused(entering)
        }),
{
}

/// A reply that does not answer the request of a task leaves the task
/// pending and the current directory as it was; a reply that answers it
/// moves the operation on.
pub proof fn law_only_answers_count(current: Seq<char>, task: TaskView, reply: ReplyView)
    ensures
        !answers(task.stage.request(), reply) ==> advanced(current, task, reply) == (
            current,
            ProgressView::Pending(task),
        ),
        answers(task.stage.request(), reply) ==> advanced(current, task, reply).1
            != ProgressView::Pending(task),
{
}

/// The number of requests that an operation may still make at a stage.
pub open spec fn requests_left(stage: Stage) -> nat {
    match stage {
        Stage::Probing => 3,
        Stage::Resolving | Stage::Inspecting => 2,
        _ => 1,
    }
}

/// Every answer brings an operation closer to its end, so that no
/// operation makes more than three requests. Every task of an operation
/// acts on the path that the first one named, but for the last task of a
/// navigation, which acts on the canonical path that the host reported.
pub proof fn law_operations_end(current: Seq<char>, task: TaskView, reply: ReplyView)
    requires
        answers(task.stage.request(), reply),
    ensures
        advanced(current, task, reply).1 matches ProgressView::Pending(following) ==> {
            &&& requests_left(following.stage) < requests_left(task.stage)
            &&& following.stage.operation() == task.stage.operation()
            &&& following.target == if task.stage == Stage::Resolving {
                reply->Path_0
            } else {
                task.target
            }
        },
{
}

/// A failure that the host reports ends the operation with an `IoError`
/// that holds the operation, the path that the host was asked to act on,
/// and the host's words.
pub proof fn law_failures_name_their_path(
    current: Seq<char>,
    task: TaskView,
    cause: Seq<char>,
)
    requires
        answers(task.stage.request(), ReplyView::Failed(cause)),
    ensures
        advanced(current, task, ReplyView::Failed(cause)) == (
            current,
            ProgressView::Failed(
                ErrorView::IoError {
                    operation: task.stage.operation(),
                    path: task.target,
                    cause,
                },
            ),
        ),
{
}

/// A name is listed exactly if the host enumerated an entry with that
/// name.
pub proof fn law_listed_names(entries: Seq<RawEntryView>, name: Seq<char>)
    ensures
        (exists|i: int| 0 <= i < listed(entries).len() && (#[trigger] listed(entries)[i]).text == name)
            <==> (exists|j: int|
            0 <= j < entries.len() && (#[trigger] entries[j]).name == Some(name)),
    decreases entries.len(),
{
    let pick = |entry: RawEntryView| listed_entry(entry);
    if entries.len() > 0 {
        let rest = entries.drop_last();
        let last = entries.last();
        law_listed_names(rest, name);
        assert(listed(rest) == rest.filter_map(pick));
        assert(listed(entries) == entries.filter_map(pick));
        if exists|i: int|
            0 <= i < listed(entries).len() && (#[trigger] listed(entries)[i]).text == name {
            let i = choose|i: int|
                0 <= i < listed(entries).len() && (#[trigger] listed(entries)[i]).text == name;
            if i < listed(rest).len() {
                assert(listed(rest)[i].text == name);
                let j = choose|j: int| 0 <= j < rest.len() && (#[trigger] rest[j]).name == Some(name);
                assert(entries[j].name == Some(name));
            } else {
                assert(entries[entries.len() - 1].name == Some(name));
            }
        }
        if exists|j: int| 0 <= j < entries.len() && (#[trigger] entries[j]).name == Some(name) {
            let j = choose|j: int|
                0 <= j < entries.len() && (#[trigger] entries[j]).name == Some(name);
            if j < rest.len() {
                assert(rest[j].name == Some(name));
                let i = choose|i: int|
                    0 <= i < listed(rest).len() && (#[trigger] listed(rest)[i]).text == name;
                assert(listed(entries)[i].text == name);
            } else {
                assert(listed(entries)[listed(entries).len() - 1].text == name);
            }
        }
    }
}

} // verus!
