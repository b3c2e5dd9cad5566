//! Gathering the child's output, event by event, until its stream closes.

use crate::event::{
    exit_is_clean, exit_recorded, EventView, ProcessEvent, StatusView, TerminalStatus,
};
use crate::text::{decode_chunk, decoded_text};
use vstd::prelude::*;

verus! {

/// The state of one invocation's stream: what the child has written so far
/// to each of its two streams, and what is known of its end.
#[derive(Debug, PartialEq, Eq)]
pub struct StreamAggregator {
    pub stdout: String,
    pub stderr: String,
    pub status: TerminalStatus,
}

/// The mathematical content of a [`StreamAggregator`].
pub struct AggregatorView {
    pub stdout: Seq<char>,
    pub stderr: Seq<char>,
    pub status: StatusView,
}

impl View for StreamAggregator {
    type V = AggregatorView;

    open spec fn view(&self) -> AggregatorView {
        AggregatorView { stdout: self.stdout@, stderr: self.stderr@, status: self.status@ }
    }
}

/// The state before any event: nothing written, no end seen.
pub open spec fn initial() -> AggregatorView {
    AggregatorView {
        stdout: Seq::empty(),
        stderr: Seq::empty(),
        status: StatusView::NotObserved,
    }
}

/// The state that a launch error with `message` leaves: what had been
/// gathered is given up, only the error remains.
pub open spec fn aborted(message: Seq<char>) -> AggregatorView {
    AggregatorView {
        stdout: Seq::empty(),
        stderr: Seq::empty(),
        status: StatusView::LaunchError(message),
    }
}

/// The state after one more event.
///
/// Output is decoded permissively and appended to its stream's text; a
/// terminal event is recorded and the stream is read on; a launch error
/// ends everything, and no later event changes the state again.
pub open spec fn step_spec(state: AggregatorView, event: EventView) -> AggregatorView {
    if state.status is LaunchError {
        state
    } else {
        match event {
            EventView::StdoutChunk(bytes) => AggregatorView {
                stdout: state.stdout + decoded_text(bytes),
                ..state
            },
            EventView::StderrChunk(bytes) => AggregatorView {
                stderr: state.stderr + decoded_text(bytes),
                ..state
            },
            EventView::LaunchError(message) => aborted(message),
            EventView::Terminated(code) => AggregatorView {
                status: exit_recorded(state.status, code),
                ..state
            },
            EventView::Other => state,
        }
    }
}

/// The text of the first launch error among `events`, if there is one.
pub open spec fn first_launch_error(events: Seq<EventView>) -> Option<Seq<char>>
    decreases events.len(),
{
    if events.len() == 0 {
        None
    } else {
        match first_launch_error(events.drop_last()) {
            Some(message) => Some(message),
            None => match events.last() {
                EventView::LaunchError(message) => Some(message),
                _ => None,
            },
        }
    }
}

/// What `event` adds to the text of standard output.
pub open spec fn stdout_part(event: EventView) -> Seq<char> {
    match event {
        EventView::StdoutChunk(bytes) => decoded_text(bytes),
        _ => Seq::empty(),
    }
}

/// What `event` adds to the text of standard error.
pub open spec fn stderr_part(event: EventView) -> Seq<char> {
    match event {
        EventView::StderrChunk(bytes) => decoded_text(bytes),
        _ => Seq::empty(),
    }
}

/// All that `events` wrote to standard output, decoded chunk by chunk and
/// joined in the order of arrival.
pub open spec fn stdout_text(events: Seq<EventView>) -> Seq<char>
    decreases events.len(),
{
    if events.len() == 0 {
        Seq::empty()
    } else {
        stdout_text(events.drop_last()) + stdout_part(events.last())
    }
}

/// All that `events` wrote to standard error, decoded chunk by chunk and
/// joined in the order of arrival.
pub open spec fn stderr_text(events: Seq<EventView>) -> Seq<char>
    decreases events.len(),
{
    if events.len() == 0 {
        Seq::empty()
    } else {
        stderr_text(events.drop_last()) + stderr_part(events.last())
    }
}

/// The exit that `events` leave on record: the first failed exit if there
/// is one, else the last exit, else none.
pub open spec fn exit_status(events: Seq<EventView>) -> StatusView
    decreases events.len(),
{
    if events.len() == 0 {
        StatusView::NotObserved
    } else {
        let prior = exit_status(events.drop_last());
        match events.last() {
            EventView::Terminated(code) => exit_recorded(prior, code),
            _ => prior,
        }
    }
}

/// The state in which a whole stream of events leaves the aggregator.
///
/// With a launch error among them, only the first such error remains.
/// Otherwise every chunk counts, those after a terminal event too.
pub open spec fn drained(events: Seq<EventView>) -> AggregatorView {
    match first_launch_error(events) {
        Some(message) => aborted(message),
        None => AggregatorView {
            stdout: stdout_text(events),
            stderr: stderr_text(events),
            status: exit_status(events),
        },
    }
}

impl StreamAggregator {
    /// The aggregator before any event.
    pub fn new() -> (state: StreamAggregator)
        ensures
            state@ == initial(),
    {
        StreamAggregator {
            stdout: String::new(),
            stderr: String::new(),
            status: TerminalStatus::NotObserved,
        }
    }

    /// Whether a launch error has ended the reading.
    pub fn is_aborted(&self) -> (yes: bool)
        ensures
            yes == (self@.status is LaunchError),
    {
        match &self.status {
            TerminalStatus::LaunchError(_) => true,
            _ => false,
        }
    }

    /// Appends already decoded text to what standard output has given.
    pub fn append_stdout(&mut self, text: &str)
        ensures
            final(self)@ == (AggregatorView {
                stdout: old(self)@.stdout + text@,
                ..old(self)@
            }),
    {
        self.stdout.append(text);
    }

    /// Appends already decoded text to what standard error has given.
    pub fn append_stderr(&mut self, text: &str)
        ensures
            final(self)@ == (AggregatorView {
                stderr: old(self)@.stderr + text@,
                ..old(self)@
            }),
    {
        self.stderr.append(text);
    }

    /// Records that the child ended with `code`, unless a failed exit or a
    /// launch error is on record already.
    pub fn record_exit(&mut self, code: Option<i32>)
        ensures
            final(self)@ == (AggregatorView {
                status: exit_recorded(old(self)@.status, code),
                ..old(self)@
            }),
    {
        let keep = match &self.status {
            TerminalStatus::NotObserved => false,
            TerminalStatus::Exited(earlier) => !exit_is_clean(*earlier),
            TerminalStatus::LaunchError(_) => true,
        };
        if !keep {
            self.status = TerminalStatus::Exited(code);
        }
    }

    /// Gives up what has been gathered and keeps only the launch error.
    pub fn abort(&mut self, message: String)
        ensures
            final(self)@ == aborted(message@),
    {
        self.stdout = String::new();
        self.stderr = String::new();
        self.status = TerminalStatus::LaunchError(message);
    }

    /// Takes one event in. The result says whether the stream is to be read
    /// on: it is, until a launch error has been seen.
    pub fn step(&mut self, event: &ProcessEvent) -> (read_on: bool)
        ensures
            final(self)@ == step_spec(old(self)@, event@),
            read_on == !(final(self)@.status is LaunchError),
    {
        if self.is_aborted() {
            return false;
        }
        match event {
            ProcessEvent::StdoutChunk(bytes) => {
                let text = decode_chunk(bytes);
                self.append_stdout(text.as_str());
                true
            },
            ProcessEvent::StderrChunk(bytes) => {
                let text = decode_chunk(bytes);
                self.append_stderr(text.as_str());
                true
            },
            ProcessEvent::LaunchError(message) => {
                self.abort(message.clone());
                false
            },
            ProcessEvent::Terminated(code) => {
                self.record_exit(*code);
                true
            },
            ProcessEvent::Other => true,
        }
    }
}

/// Reads a whole stream of events, in order, and stops at the first launch
/// error.
pub fn drain(events: &Vec<ProcessEvent>) -> (state: StreamAggregator)
    ensures
        state@ == drained(events.deep_view()),
{
    let mut state = StreamAggregator::new();
    let mut next: usize = 0;
    assert(events.deep_view().take(0) =~= Seq::<EventView>::empty());
    while next < events.len()
        invariant
            next <= events.len(),
            state@ == drained(events.deep_view().take(next as int)),
            !(state@.status is LaunchError),
        decreases events.len() - next,
    {
        let ghost seen = events.deep_view().take(next as int);
        let read_on = state.step(&events[next]);
        proof {
            lemma_drained_push(seen, events[next as int]@);
            assert(seen.push(events[next as int]@) =~= events.deep_view().take(next + 1));
        }
        next = next + 1;
        if !read_on {
            proof {
                lemma_launch_error_is_final(events.deep_view(), next as int);
            }
            return state;
        }
    }
    assert(events.deep_view().take(next as int) =~= events.deep_view());
    state
}

/// Without a launch error the recorded exit is never a launch error.
pub proof fn lemma_exit_status_kind(events: Seq<EventView>)
    ensures
        !(exit_status(events) is LaunchError),
    decreases events.len(),
{
    if events.len() > 0 {
        lemma_exit_status_kind(events.drop_last());
    }
}

/// Draining one event more is taking one step from where the shorter
/// stream ended.
pub proof fn lemma_drained_push(events: Seq<EventView>, event: EventView)
    ensures
        drained(events.push(event)) == step_spec(drained(events), event),
{
    let longer = events.push(event);
    assert(longer.drop_last() =~= events);
    assert(longer.last() == event);
    lemma_exit_status_kind(events);
    if first_launch_error(events) is None {
        match event {
            EventView::StdoutChunk(bytes) => {
                assert(stderr_text(longer) =~= stderr_text(events));
            },
            EventView::StderrChunk(bytes) => {
                assert(stdout_text(longer) =~= stdout_text(events));
            },
            EventView::LaunchError(message) => {},
            EventView::Terminated(code) => {
                assert(stdout_text(longer) =~= stdout_text(events));
                assert(stderr_text(longer) =~= stderr_text(events));
            },
            EventView::Other => {
                assert(stdout_text(longer) =~= stdout_text(events));
                assert(stderr_text(longer) =~= stderr_text(events));
            },
        }
    }
}

/// Taking the steps one after another from the initial state ends where
/// the whole stream is said to end.
pub proof fn lemma_steps_reach_drained(events: Seq<EventView>)
    ensures
        events.fold_left(initial(), |state: AggregatorView, event: EventView| step_spec(state, event))
            == drained(events),
    decreases events.len(),
{
    if events.len() > 0 {
        lemma_steps_reach_drained(events.drop_last());
        lemma_drained_push(events.drop_last(), events.last());
        assert(events.drop_last().push(events.last()) =~= events);
    }
}

/// A launch error in the first `n` events decides the outcome of the whole stream.
pub proof fn lemma_launch_error_is_final(events: Seq<EventView>, n: int)
    requires
        0 <= n <= events.len(),
        first_launch_error(events.take(n)) is Some,
    ensures
        drained(events) == drained(events.take(n)),
    decreases events.len() - n,
{
    if n < events.len() {
        assert(events.take(n + 1).drop_last() =~= events.take(n));
        lemma_launch_error_is_final(events, n + 1);
    } else {
        assert(events.take(n) =~= events);
    }
}

} // verus!
