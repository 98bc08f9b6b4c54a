//! What passes between a workflow and the driver that runs it.
//!
//! A workflow touches nothing outside itself. It names the next thing to be
//! done as an `Action`; the driver carries it out and answers with an
//! `Event`, on which the workflow decides what comes next.

use crate::layout::join_text;
use vstd::prelude::*;
use vstd::string::*;

verus! {

/// The text of each string, in order.
pub open spec fn texts(strings: Seq<String>) -> Seq<Seq<char>> {
    strings.map_values(|s: String| s@)
}

/// Why a workflow gave up.
#[derive(Clone, Copy, Debug, PartialEq, Eq, Structural)]
pub enum FailureKind {
    /// A file or directory could not be created, read, written, listed or
    /// moved.
    Io,
    /// The editor could not be started or did not run to its end.
    CollaboratorLaunch,
    /// The file is longer than the digest can count.
    TooLarge,
    /// The driver answered with an event that does not fit the action.
    Protocol,
}

/// A failure as a mathematical value.
pub struct FailureView {
    pub kind: FailureKind,
    pub operation: Seq<char>,
    pub detail: Seq<char>,
}

/// A fatal failure: what was being done, on which path, and what the driver
/// said went wrong.
#[derive(Debug, PartialEq, Eq)]
pub struct Failure {
    pub kind: FailureKind,
    pub operation: String,
    pub detail: String,
}

impl View for Failure {
    type V = FailureView;

    open spec fn view(&self) -> FailureView {
        FailureView { kind: self.kind, operation: self.operation@, detail: self.detail@ }
    }
}

impl FailureView {
    /// The diagnostic: the operation, and the detail after a colon if there
    /// is any.
    pub open spec fn message(self) -> Seq<char> {
        if self.detail.len() == 0 {
            self.operation
        } else {
            self.operation + ": "@ + self.detail
        }
    }
}

impl Failure {
    /// A copy of this failure.
    pub fn duplicate(&self) -> (copy: Failure)
        ensures
            copy@ == self@,
    {
        Failure {
            kind: self.kind,
            operation: self.operation.clone(),
            detail: self.detail.clone(),
        }
    }

    /// The diagnostic to show the operator.
    pub fn message(&self) -> (text: String)
        ensures
            text@ == self@.message(),
    {
        if self.detail.as_str().is_empty() {
            self.operation.clone()
        } else {
            let mut text = join_text(self.operation.as_str(), ": ");
            text.append(self.detail.as_str());
            text
        }
    }
}

/// An action as a mathematical value.
pub enum ActionView {
    ReadChunk { path: Seq<char>, limit: nat },
    CreateDirAll { path: Seq<char> },
    CreateNew { path: Seq<char> },
    Write { path: Seq<char>, text: Seq<char> },
    Edit { path: Seq<char> },
    Rename { from: Seq<char>, to: Seq<char> },
    ListDir { path: Seq<char> },
    ReadText { path: Seq<char> },
    Print { lines: Seq<Seq<char>> },
    Finish,
    Fail { failure: FailureView },
}

/// What a workflow asks its driver to do next.
#[derive(Debug, PartialEq, Eq)]
pub enum Action {
    /// Read the next bytes of the file, at most `limit` of them, and answer
    /// with `Event::Chunk`; with no bytes once the file has been read to its
    /// end.
    ReadChunk { path: String, limit: usize },
    /// Create the directory and its missing parents; one that is there
    /// already is no failure.
    CreateDirAll { path: String },
    /// Create the file, empty, unless something is at the path already;
    /// answer with `Event::Exists` if something is.
    CreateNew { path: String },
    /// Write the text to the file just created.
    Write { path: String, text: String },
    /// Run the editor on the file, on the caller's own terminal, and wait
    /// for it to end.
    Edit { path: String },
    /// Move the file at `from` to `to` by renaming it, without a copy where
    /// that is not possible. What becomes of a file that is at `to` already
    /// is the file system's rule.
    Rename { from: String, to: String },
    /// List the entries directly inside the directory and answer with
    /// `Event::Listed`.
    ListDir { path: String },
    /// Read the whole file as text and answer with `Event::Text`.
    ReadText { path: String },
    /// Print the lines to standard output, one after another.
    Print { lines: Vec<String> },
    /// Nothing is left to do: end with success.
    Finish,
    /// Show the diagnostic and end with a failure status.
    Fail { failure: Failure },
}

impl View for Action {
    type V = ActionView;

    open spec fn view(&self) -> ActionView {
        match self {
            Action::ReadChunk { path, limit } => ActionView::ReadChunk {
                path: path@,
                limit: *limit as nat,
            },
            Action::CreateDirAll { path } => ActionView::CreateDirAll { path: path@ },
            Action::CreateNew { path } => ActionView::CreateNew { path: path@ },
            Action::Write { path, text } => ActionView::Write { path: path@, text: text@ },
            Action::Edit { path } => ActionView::Edit { path: path@ },
            Action::Rename { from, to } => ActionView::Rename { from: from@, to: to@ },
            Action::ListDir { path } => ActionView::ListDir { path: path@ },
            Action::ReadText { path } => ActionView::ReadText { path: path@ },
            Action::Print { lines } => ActionView::Print { lines: texts(lines@) },
            Action::Finish => ActionView::Finish,
            Action::Fail { failure } => ActionView::Fail { failure: failure@ },
        }
    }
}

/// An event as a mathematical value.
pub enum EventView {
    Done,
    Exists,
    Chunk { bytes: Seq<u8> },
    Listed { paths: Seq<Seq<char>> },
    Text { text: Seq<char> },
    Failed { detail: Seq<char> },
}

/// What the driver answers once it has tried an action.
#[derive(Debug, PartialEq, Eq)]
pub enum Event {
    /// The action was carried out.
    Done,
    /// `CreateNew` found something at the path.
    Exists,
    /// The bytes that `ReadChunk` read; none at the end of the file.
    Chunk { bytes: Vec<u8> },
    /// The paths of the entries that `ListDir` found, in the order in which
    /// the directory gave them.
    Listed { paths: Vec<String> },
    /// The text that `ReadText` read.
    Text { text: String },
    /// The action could not be carried out; `detail` says why.
    Failed { detail: String },
}

impl View for Event {
    type V = EventView;

    open spec fn view(&self) -> EventView {
        match self {
            Event::Done => EventView::Done,
            Event::Exists => EventView::Exists,
            Event::Chunk { bytes } => EventView::Chunk { bytes: bytes@ },
            Event::Listed { paths } => EventView::Listed { paths: texts(paths@) },
            Event::Text { text } => EventView::Text { text: text@ },
            Event::Failed { detail } => EventView::Failed { detail: detail@ },
        }
    }
}

/// The failure of `kind` while doing what `operation` and `path` name.
pub fn failure_at(kind: FailureKind, operation: &str, path: &str, detail: String) -> (failure:
    Failure)
    ensures
        failure@ == (FailureView { kind, operation: operation@ + path@, detail: detail@ }),
{
    Failure { kind, operation: join_text(operation, path), detail }
}

/// The failure of a workflow whose driver answered with an event that does not
/// fit the action.
pub open spec fn unexpected() -> FailureView {
    FailureView {
        kind: FailureKind::Protocol,
        operation: "unexpected answer from the driver"@,
        detail: Seq::empty(),
    }
}

/// An I/O failure while doing what `operation` and `path` name.
pub open spec fn io_failure(operation: Seq<char>, path: Seq<char>, detail: Seq<char>)
    -> FailureView {
    FailureView { kind: FailureKind::Io, operation: operation + path, detail }
}

/// The failure of a workflow whose driver answered with an event that does
/// not fit the action.
pub fn unexpected_answer() -> (failure: Failure)
    ensures
        failure@ == unexpected(),
{
    Failure {
        kind: FailureKind::Protocol,
        operation: String::from_str("unexpected answer from the driver"),
        detail: String::new(),
    }
}

} // verus!
