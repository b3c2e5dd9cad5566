//! The events that a running child process reports, and what is remembered
//! of its end.

use vstd::prelude::*;

verus! {

/// One report from the child process, in the order in which it arrived.
#[derive(Debug, PartialEq, Eq)]
pub enum ProcessEvent {
    /// Bytes that the child wrote to its standard output.
    StdoutChunk(Vec<u8>),
    /// Bytes that the child wrote to its standard error.
    StderrChunk(Vec<u8>),
    /// The host could not keep the child running; the text says why.
    LaunchError(String),
    /// The child ended, with its exit code where one is known.
    Terminated(Option<i32>),
    /// Any other kind of report. It changes nothing.
    Other,
}

/// The mathematical content of a [`ProcessEvent`].
pub enum EventView {
    StdoutChunk(Seq<u8>),
    StderrChunk(Seq<u8>),
    LaunchError(Seq<char>),
    Terminated(Option<i32>),
    Other,
}

impl View for ProcessEvent {
    type V = EventView;

    open spec fn view(&self) -> EventView {
        match self {
            ProcessEvent::StdoutChunk(bytes) => EventView::StdoutChunk(bytes@),
            ProcessEvent::StderrChunk(bytes) => EventView::StderrChunk(bytes@),
            ProcessEvent::LaunchError(message) => EventView::LaunchError(message@),
            ProcessEvent::Terminated(code) => EventView::Terminated(*code),
            ProcessEvent::Other => EventView::Other,
        }
    }
}

impl DeepView for ProcessEvent {
    type V = EventView;

    open spec fn deep_view(&self) -> EventView {
        self@
    }
}

/// What is known of how the child ended.
#[derive(Debug, PartialEq, Eq)]
pub enum TerminalStatus {
    /// No terminal event has been seen.
    NotObserved,
    /// The child ended with this exit code; `None` where none was reported,
    /// as after a signal.
    Exited(Option<i32>),
    /// A launch error was reported, with this text.
    LaunchError(String),
}

/// The mathematical content of a [`TerminalStatus`].
pub enum StatusView {
    NotObserved,
    Exited(Option<i32>),
    LaunchError(Seq<char>),
}

impl View for TerminalStatus {
    type V = StatusView;

    open spec fn view(&self) -> StatusView {
        match self {
            TerminalStatus::NotObserved => StatusView::NotObserved,
            TerminalStatus::Exited(code) => StatusView::Exited(*code),
            TerminalStatus::LaunchError(message) => StatusView::LaunchError(message@),
        }
    }
}

/// An exit counts as clean only with the code zero.
pub open spec fn clean_exit(code: Option<i32>) -> bool {
    code == Some(0i32)
}

/// Whether an exit with `code` is a clean one.
pub fn exit_is_clean(code: Option<i32>) -> (clean: bool)
    ensures
        clean == clean_exit(code),
{
    match code {
        Some(value) => value == 0,
        None => false,
    }
}

/// The status is that of a child that ended other than with the code zero.
pub open spec fn failed_exit(status: StatusView) -> bool {
    status matches StatusView::Exited(code) && !clean_exit(code)
}

/// The status after a terminal event with `code`: a failed exit, once
/// recorded, stays; anything else gives way to the new exit.
pub open spec fn exit_recorded(status: StatusView, code: Option<i32>) -> StatusView {
    if failed_exit(status) || status is LaunchError {
        status
    } else {
        StatusView::Exited(code)
    }
}

} // verus!
