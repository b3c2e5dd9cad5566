//! The ways in which an invocation fails, and the one line of text that the
//! caller is given for each.

use vstd::prelude::*;

verus! {

/// The name under which the extractor is registered with the host.
pub const EXTRACTOR: &'static str = "yt-dlp";

/// What precedes the host's reason when the child could not be started.
pub const LAUNCH_FAILURE_PREFIX: &'static str = "Failed to spawn yt-dlp sidecar: ";

/// What precedes the text of a launch error reported while the child ran.
pub const EXECUTION_ERROR_PREFIX: &'static str = "Command execution error: ";

/// What stands between the extractor's name and its diagnostics when it
/// ended other than with the code zero.
pub const EXIT_ERROR_INFIX: &'static str = " exited with error: ";

/// Why no child process came to run.
#[derive(Debug, PartialEq, Eq)]
pub enum SpawnError {
    /// The host could not find or register the extractor; its reason.
    RegistrationFailure(String),
    /// The operating system refused to start the child; its reason.
    LaunchFailure(String),
}

/// The mathematical content of a [`SpawnError`].
pub enum SpawnErrorView {
    RegistrationFailure(Seq<char>),
    LaunchFailure(Seq<char>),
}

impl View for SpawnError {
    type V = SpawnErrorView;

    open spec fn view(&self) -> SpawnErrorView {
        match self {
            SpawnError::RegistrationFailure(cause) => SpawnErrorView::RegistrationFailure(cause@),
            SpawnError::LaunchFailure(cause) => SpawnErrorView::LaunchFailure(cause@),
        }
    }
}

/// Why an invocation gave no metadata.
#[derive(Debug, PartialEq, Eq)]
pub enum InvocationError {
    /// No child process came to run.
    Spawn(SpawnError),
    /// A launch error was reported while the child ran; its text.
    RuntimeExecutionError(String),
    /// The child ended other than with the code zero; what it had written to
    /// its standard error.
    NonZeroExit { code: Option<i32>, stderr: String },
}

/// The mathematical content of an [`InvocationError`].
pub enum InvocationErrorView {
    Spawn(SpawnErrorView),
    RuntimeExecutionError(Seq<char>),
    NonZeroExit { code: Option<i32>, stderr: Seq<char> },
}

impl View for InvocationError {
    type V = InvocationErrorView;

    open spec fn view(&self) -> InvocationErrorView {
        match self {
            InvocationError::Spawn(error) => InvocationErrorView::Spawn(error@),
            InvocationError::RuntimeExecutionError(message) => {
                InvocationErrorView::RuntimeExecutionError(message@)
            },
            InvocationError::NonZeroExit { code, stderr } => InvocationErrorView::NonZeroExit {
                code: *code,
                stderr: stderr@,
            },
        }
    }
}

/// The line of text for a spawn error: the host's reason as it is for a
/// registration failure, and behind a fixed prefix for a launch failure.
pub open spec fn spawn_message(error: SpawnErrorView) -> Seq<char> {
    match error {
        SpawnErrorView::RegistrationFailure(cause) => cause,
        SpawnErrorView::LaunchFailure(cause) => LAUNCH_FAILURE_PREFIX@ + cause,
    }
}

/// The line of text for an invocation error.
pub open spec fn failure_message(error: InvocationErrorView) -> Seq<char> {
    match error {
        InvocationErrorView::Spawn(inner) => spawn_message(inner),
        InvocationErrorView::RuntimeExecutionError(message) => EXECUTION_ERROR_PREFIX@ + message,
        InvocationErrorView::NonZeroExit { code, stderr } => EXTRACTOR@ + EXIT_ERROR_INFIX@
            + stderr,
    }
}

/// `prefix` followed by `rest`, as a new string.
pub(crate) fn prefixed(prefix: &str, rest: &str) -> (text: String)
    ensures
        text@ == prefix@ + rest@,
{
    let mut text = String::from_str(prefix);
    text.append(rest);
    text
}

impl SpawnError {
    /// The line of text that the caller is given for this error.
    pub fn message(&self) -> (text: String)
        ensures
            text@ == spawn_message(self@),
    {
        match self {
            SpawnError::RegistrationFailure(cause) => cause.clone(),
            SpawnError::LaunchFailure(cause) => prefixed(LAUNCH_FAILURE_PREFIX, cause.as_str()),
        }
    }
}

impl InvocationError {
    /// The line of text that the caller is given for this error.
    pub fn message(&self) -> (text: String)
        ensures
            text@ == failure_message(self@),
    {
        match self {
            InvocationError::Spawn(inner) => inner.message(),
            InvocationError::RuntimeExecutionError(message) => prefixed(
                EXECUTION_ERROR_PREFIX,
                message.as_str(),
            ),
            InvocationError::NonZeroExit { code, stderr } => {
                let mut text = prefixed(EXTRACTOR, EXIT_ERROR_INFIX);
                text.append(stderr.as_str());
                text
            },
        }
    }
}

} // verus!
