//! Putting together the command line with which the extractor is started.

use crate::failure::{prefixed, SpawnError, SpawnErrorView, EXTRACTOR};
use vstd::prelude::*;

verus! {

/// Asks for one metadata document and no download.
pub const DUMP_FLAG: &'static str = "-J";

/// Announces the scripting engine that the extractor may use.
pub const ENGINE_FLAG: &'static str = "--js-runtimes";

/// Names the engine in front of its path.
pub const ENGINE_PREFIX: &'static str = "bun:";

/// Asks for the cookies of a browser.
pub const COOKIES_FLAG: &'static str = "--cookies-from-browser";

/// The browser whose cookies are asked for.
pub const COOKIES_BROWSER: &'static str = "chrome";

/// A command that is ready to be started.
#[derive(Debug, PartialEq, Eq)]
pub struct Invocation {
    pub program: String,
    pub args: Vec<String>,
}

/// The mathematical content of an [`Invocation`].
pub struct InvocationView {
    pub program: Seq<char>,
    pub args: Seq<Seq<char>>,
}

impl View for Invocation {
    type V = InvocationView;

    open spec fn view(&self) -> InvocationView {
        InvocationView { program: self.program@, args: self.args.deep_view() }
    }
}

/// The value that names the engine and its place.
pub open spec fn engine_argument(auxiliary_path: Seq<char>) -> Seq<char> {
    ENGINE_PREFIX@ + auxiliary_path
}

/// The six arguments of every invocation, in their order. The target is the
/// second, whole and as given; the engine's place follows its flag whether
/// or not anything exists there.
pub open spec fn arguments(target: Seq<char>, auxiliary_path: Seq<char>) -> Seq<Seq<char>> {
    seq![
        DUMP_FLAG@,
        target,
        ENGINE_FLAG@,
        engine_argument(auxiliary_path),
        COOKIES_FLAG@,
        COOKIES_BROWSER@,
    ]
}

/// The invocation for `target`, or the reason why the host cannot run the
/// extractor.
pub open spec fn invocation_for(
    registration: Result<(), Seq<char>>,
    target: Seq<char>,
    auxiliary_path: Seq<char>,
) -> Result<InvocationView, SpawnErrorView> {
    match registration {
        Ok(_) => Ok(
            InvocationView { program: EXTRACTOR@, args: arguments(target, auxiliary_path) },
        ),
        Err(cause) => Err(SpawnErrorView::RegistrationFailure(cause)),
    }
}

/// The content of what the host answered when asked for the extractor.
pub open spec fn registration_view(registration: Result<(), String>) -> Result<(), Seq<char>> {
    match registration {
        Ok(_) => Ok(()),
        Err(cause) => Err(cause@),
    }
}

/// The content of what building an invocation gave.
pub open spec fn built_view(built: Result<Invocation, SpawnError>) -> Result<
    InvocationView,
    SpawnErrorView,
> {
    match built {
        Ok(invocation) => Ok(invocation@),
        Err(error) => Err(error@),
    }
}

/// Builds the value that names the engine and its place.
pub fn engine_arg(auxiliary_path: &str) -> (arg: String)
    ensures
        arg@ == engine_argument(auxiliary_path@),
{
    prefixed(ENGINE_PREFIX, auxiliary_path)
}

/// Builds the arguments for `target`.
pub fn build_args(target: &str, auxiliary_path: &str) -> (args: Vec<String>)
    ensures
        args.deep_view() == arguments(target@, auxiliary_path@),
{
    let mut args: Vec<String> = Vec::new();
    args.push(String::from_str(DUMP_FLAG));
    args.push(String::from_str(target));
    args.push(String::from_str(ENGINE_FLAG));
    args.push(engine_arg(auxiliary_path));
    args.push(String::from_str(COOKIES_FLAG));
    args.push(String::from_str(COOKIES_BROWSER));
    assert(args.deep_view() =~= arguments(target@, auxiliary_path@));
    args
}

/// Builds the invocation for `target`, given what the host answered when it
/// was asked for the extractor: with its reason for a refusal, the result is
/// a registration failure that carries that reason.
pub fn build_invocation(registration: Result<(), String>, target: &str, auxiliary_path: &str) -> (built:
    Result<Invocation, SpawnError>)
    ensures
        built_view(built) == invocation_for(
            registration_view(registration),
            target@,
            auxiliary_path@,
        ),
{
    match registration {
        Ok(_) => Ok(
            Invocation {
                program: String::from_str(EXTRACTOR),
                args: build_args(target, auxiliary_path),
            },
        ),
        Err(cause) => Err(SpawnError::RegistrationFailure(cause)),
    }
}

/// The target fills the second place and no other, whatever it holds: two
/// targets give command lines of the same length that differ in that place
/// alone.
pub proof fn lemma_target_is_one_argument(
    target: Seq<char>,
    other: Seq<char>,
    auxiliary_path: Seq<char>,
)
    ensures
        arguments(target, auxiliary_path).len() == 6,
        arguments(target, auxiliary_path)[1] == target,
        arguments(target, auxiliary_path) == arguments(other, auxiliary_path).update(1, target),
        forall|place: int|
            0 <= place < 6 && place != 1 ==> arguments(target, auxiliary_path)[place]
                == #[trigger] arguments(other, auxiliary_path)[place],
{
    assert(arguments(target, auxiliary_path) =~= arguments(other, auxiliary_path).update(
        1,
        target,
    ));
}

} // verus!
