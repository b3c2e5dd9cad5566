//! Turning the end of an invocation into its one result: the text that the
//! child wrote to standard output, or the reason why there is none.

use crate::aggregator::{drain, drained, AggregatorView, StreamAggregator};
use crate::event::{
    clean_exit, exit_is_clean, EventView, ProcessEvent, StatusView, TerminalStatus,
};
use crate::failure::{
    failure_message, InvocationError, InvocationErrorView, SpawnError, SpawnErrorView,
};
use vstd::prelude::*;

verus! {

/// The result of an invocation, by kind of failure.
pub type Outcome = Result<String, InvocationError>;

/// The mathematical content of an [`Outcome`].
pub type OutcomeView = Result<Seq<char>, InvocationErrorView>;

/// The content of a result by kind of failure.
pub open spec fn outcome_view(outcome: Outcome) -> OutcomeView {
    match outcome {
        Ok(text) => Ok(text@),
        Err(error) => Err(error@),
    }
}

/// The content of a result as the caller receives it: text either way.
pub open spec fn text_view(result: Result<String, String>) -> Result<Seq<char>, Seq<char>> {
    match result {
        Ok(text) => Ok(text@),
        Err(message) => Err(message@),
    }
}

/// The content of what starting the child gave: its events, or the reason
/// why it did not start.
pub open spec fn spawned_view(spawned: Result<Vec<ProcessEvent>, SpawnError>) -> Result<
    Seq<EventView>,
    SpawnErrorView,
> {
    match spawned {
        Ok(events) => Ok(events.deep_view()),
        Err(error) => Err(error@),
    }
}

/// The result for a stream that ended in `state`.
///
/// A launch error fails with its text. An exit with any code but zero, or
/// with none, fails with what was gathered from standard error. Otherwise,
/// and also where no exit was seen at all, the result is what was gathered
/// from standard output, as it is.
pub open spec fn resolved(state: AggregatorView) -> OutcomeView {
    match state.status {
        StatusView::LaunchError(message) => Err(
            InvocationErrorView::RuntimeExecutionError(message),
        ),
        StatusView::Exited(code) => if clean_exit(code) {
            Ok(state.stdout)
        } else {
            Err(InvocationErrorView::NonZeroExit { code, stderr: state.stderr })
        },
        StatusView::NotObserved => Ok(state.stdout),
    }
}

/// The result with each failure replaced by its line of text.
pub open spec fn as_text(outcome: OutcomeView) -> Result<Seq<char>, Seq<char>> {
    match outcome {
        Ok(text) => Ok(text),
        Err(error) => Err(failure_message(error)),
    }
}

/// The result of a whole invocation, from what starting the child gave.
pub open spec fn invocation_outcome(spawned: Result<Seq<EventView>, SpawnErrorView>) -> OutcomeView {
    match spawned {
        Ok(events) => resolved(drained(events)),
        Err(error) => Err(InvocationErrorView::Spawn(error)),
    }
}

/// Decides the result for a stream that has been read to its end.
pub fn resolve(state: StreamAggregator) -> (outcome: Outcome)
    ensures
        outcome_view(outcome) == resolved(state@),
{
    match state.status {
        TerminalStatus::LaunchError(message) => Err(
            InvocationError::RuntimeExecutionError(message),
        ),
        TerminalStatus::Exited(code) => {
            if exit_is_clean(code) {
                Ok(state.stdout)
            } else {
                Err(InvocationError::NonZeroExit { code, stderr: state.stderr })
            }
        },
        TerminalStatus::NotObserved => Ok(state.stdout),
    }
}

/// Replaces a failure by its line of text.
pub fn into_text(outcome: Outcome) -> (result: Result<String, String>)
    ensures
        text_view(result) == as_text(outcome_view(outcome)),
{
    match outcome {
        Ok(text) => Ok(text),
        Err(error) => Err(error.message()),
    }
}

/// The result of an invocation whose events are all at hand: none of them is
/// looked at where the child did not start.
pub fn conclude(spawned: Result<Vec<ProcessEvent>, SpawnError>) -> (outcome: Outcome)
    ensures
        outcome_view(outcome) == invocation_outcome(spawned_view(spawned)),
{
    match spawned {
        Ok(events) => resolve(drain(&events)),
        Err(error) => Err(InvocationError::Spawn(error)),
    }
}

} // verus!
