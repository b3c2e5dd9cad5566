//! What holds of every invocation, whatever the child does.

use crate::aggregator::{
    drained, exit_status, first_launch_error, lemma_exit_status_kind,
    lemma_launch_error_is_final, stderr_part, stderr_text, stdout_part, stdout_text, step_spec,
    AggregatorView,
};
use crate::event::{clean_exit, failed_exit, EventView};
use crate::failure::{EXECUTION_ERROR_PREFIX, EXIT_ERROR_INFIX, EXTRACTOR};
use crate::outcome::{as_text, resolved};
use crate::text::lemma_encode_utf8_concat;
use vstd::prelude::*;
use vstd::utf8::*;

verus! {

/// No event of the stream is a launch error.
pub open spec fn no_launch_error(events: Seq<EventView>) -> bool {
    forall|at: int| 0 <= at < events.len() ==> !(#[trigger] events[at] is LaunchError)
}

/// Every terminal event of the stream carries the exit code zero.
pub open spec fn every_exit_clean(events: Seq<EventView>) -> bool {
    forall|at: int|
        0 <= at < events.len() ==> (#[trigger] events[at] matches EventView::Terminated(code)
            ==> clean_exit(code))
}

/// Every chunk of standard output is well-formed UTF-8 by itself.
pub open spec fn stdout_well_formed(events: Seq<EventView>) -> bool {
    forall|at: int|
        0 <= at < events.len() ==> (#[trigger] events[at] matches EventView::StdoutChunk(bytes)
            ==> valid_utf8(bytes))
}

/// The bytes that `event` adds to standard output.
pub open spec fn stdout_chunk(event: EventView) -> Seq<u8> {
    match event {
        EventView::StdoutChunk(bytes) => bytes,
        _ => Seq::empty(),
    }
}

/// All bytes that the child wrote to standard output, in the order of
/// arrival.
pub open spec fn stdout_bytes(events: Seq<EventView>) -> Seq<u8>
    decreases events.len(),
{
    if events.len() == 0 {
        Seq::empty()
    } else {
        stdout_bytes(events.drop_last()) + stdout_chunk(events.last())
    }
}

/// The result of a stream, as the caller receives it.
pub open spec fn stream_result(events: Seq<EventView>) -> Result<Seq<char>, Seq<char>> {
    as_text(resolved(drained(events)))
}

/// A stream has a first launch error exactly when one of its events is a
/// launch error.
pub proof fn lemma_first_launch_error(events: Seq<EventView>)
    ensures
        first_launch_error(events) is None <==> no_launch_error(events),
    decreases events.len(),
{
    if events.len() > 0 {
        let shorter = events.drop_last();
        lemma_first_launch_error(shorter);
        if no_launch_error(events) {
            assert forall|at: int| 0 <= at < shorter.len() implies !(
            #[trigger] shorter[at] is LaunchError) by {
                assert(shorter[at] == events[at]);
            }
            assert(!(events[events.len() - 1] is LaunchError));
        }
        if first_launch_error(events) is None {
            assert forall|at: int| 0 <= at < events.len() implies !(
            #[trigger] events[at] is LaunchError) by {
                if at < shorter.len() {
                    assert(shorter[at] == events[at]);
                }
            }
        }
    }
}

/// The exit on record is a failed one exactly when some terminal event
/// carries a code other than zero, or none.
pub proof fn lemma_failed_exit_on_record(events: Seq<EventView>)
    ensures
        failed_exit(exit_status(events)) <==> !every_exit_clean(events),
    decreases events.len(),
{
    if events.len() > 0 {
        let shorter = events.drop_last();
        lemma_failed_exit_on_record(shorter);
        lemma_exit_status_kind(shorter);
        if every_exit_clean(events) {
            assert forall|at: int| 0 <= at < shorter.len() implies (
            #[trigger] shorter[at] matches EventView::Terminated(code) ==> clean_exit(code)) by {
                assert(shorter[at] == events[at]);
            }
            assert(events[events.len() - 1] matches EventView::Terminated(code) ==> clean_exit(
                code,
            ));
        } else {
            let at = choose|at: int|
                0 <= at < events.len() && !(#[trigger] events[at] matches EventView::Terminated(
                    code,
                ) ==> clean_exit(code));
            if at < shorter.len() {
                assert(shorter[at] == events[at]);
                assert(!every_exit_clean(shorter));
            }
        }
        if !failed_exit(exit_status(events)) {
            assert forall|at: int| 0 <= at < events.len() implies (
            #[trigger] events[at] matches EventView::Terminated(code) ==> clean_exit(code)) by {
                if at < shorter.len() {
                    assert(shorter[at] == events[at]);
                }
            }
        }
    }
}

/// A child that reports no launch error and ends with the code zero, or is
/// not seen to end at all, succeeds, and the result is all that it wrote to
/// standard output, in order and with nothing added or taken away.
pub proof fn lemma_clean_run_returns_stdout(events: Seq<EventView>)
    requires
        no_launch_error(events),
        every_exit_clean(events),
    ensures
        stream_result(events) == Ok::<Seq<char>, Seq<char>>(stdout_text(events)),
{
    lemma_first_launch_error(events);
    lemma_failed_exit_on_record(events);
    lemma_exit_status_kind(events);
}

/// Where every chunk of standard output is well-formed UTF-8 by itself,
/// the gathered text encodes to exactly the bytes that the child wrote.
pub proof fn lemma_well_formed_output_is_kept(events: Seq<EventView>)
    requires
        stdout_well_formed(events),
    ensures
        valid_utf8(stdout_bytes(events)),
        encode_utf8(stdout_text(events)) == stdout_bytes(events),
        stdout_text(events) == decode_utf8(stdout_bytes(events)),
    decreases events.len(),
{
    broadcast use {
        encode_utf8_decode_utf8,
        decode_utf8_encode_utf8,
        valid_utf8_concat,
        encode_utf8_valid_utf8,
    };

    if events.len() == 0 {
        assert(valid_utf8(stdout_bytes(events)));
        assert(encode_utf8(stdout_text(events)) =~= stdout_bytes(events));
        assert(decode_utf8(stdout_bytes(events)) =~= stdout_text(events));
    } else {
        let shorter = events.drop_last();
        let last = events.last();
        assert forall|at: int| 0 <= at < shorter.len() implies (
        #[trigger] shorter[at] matches EventView::StdoutChunk(bytes) ==> valid_utf8(bytes)) by {
            assert(shorter[at] == events[at]);
        }
        lemma_well_formed_output_is_kept(shorter);
        assert(events[events.len() - 1] == last);
        assert(valid_utf8(stdout_chunk(last)));
        assert(encode_utf8(stdout_part(last)) == stdout_chunk(last)) by {
            match last {
                EventView::StdoutChunk(bytes) => {},
                _ => {
                    assert(encode_utf8(stdout_part(last)) =~= stdout_chunk(last));
                },
            }
        }
        lemma_encode_utf8_concat(stdout_text(shorter), stdout_part(last));
        assert(encode_utf8(stdout_text(events)) == stdout_bytes(events));
        assert(decode_utf8(encode_utf8(stdout_text(events))) == stdout_text(events));
    }
}

/// A launch error fails the invocation with its own text behind a fixed
/// prefix, whatever the child had written before it and whatever follows.
pub proof fn lemma_launch_error_discards_output(
    before: Seq<EventView>,
    message: Seq<char>,
    after: Seq<EventView>,
)
    requires
        no_launch_error(before),
    ensures
        drained(before.push(EventView::LaunchError(message)) + after).stdout == Seq::<char>::empty(),
        stream_result(before.push(EventView::LaunchError(message)) + after) == Err::<
            Seq<char>,
            Seq<char>,
        >(EXECUTION_ERROR_PREFIX@ + message),
{
    let upto = before.push(EventView::LaunchError(message));
    let events = upto + after;
    lemma_first_launch_error(before);
    assert(upto.drop_last() =~= before);
    assert(first_launch_error(upto) == Some(message));
    assert(events.take(upto.len() as int) =~= upto);
    lemma_launch_error_is_final(events, upto.len() as int);
}

/// A stream with a launch error anywhere in it fails, and nothing of what
/// was written to standard output is in the result.
pub proof fn lemma_launch_error_fails(events: Seq<EventView>, at: int)
    requires
        0 <= at < events.len(),
        events[at] is LaunchError,
    ensures
        first_launch_error(events) is Some,
        stream_result(events) == Err::<Seq<char>, Seq<char>>(
            EXECUTION_ERROR_PREFIX@ + first_launch_error(events)->0,
        ),
{
    lemma_first_launch_error(events);
}

/// A child that reports no launch error and ends with a code other than
/// zero, or with none, fails, and the message ends with all that it wrote
/// to standard error, unchanged.
pub proof fn lemma_failed_exit_reports_stderr(events: Seq<EventView>, at: int)
    requires
        no_launch_error(events),
        0 <= at < events.len(),
        events[at] matches EventView::Terminated(code) && !clean_exit(code),
    ensures
        stream_result(events) == Err::<Seq<char>, Seq<char>>(
            EXTRACTOR@ + EXIT_ERROR_INFIX@ + stderr_text(events),
        ),
        stream_result(events)->Err_0.skip((EXTRACTOR@ + EXIT_ERROR_INFIX@).len() as int)
            == stderr_text(events),
{
    lemma_first_launch_error(events);
    lemma_failed_exit_on_record(events);
    lemma_exit_status_kind(events);
    let lead = EXTRACTOR@ + EXIT_ERROR_INFIX@;
    assert((lead + stderr_text(events)).skip(lead.len() as int) =~= stderr_text(events));
}

/// Until a launch error is seen, a step never takes anything away from what
/// has been gathered: each stream's text grows by what the event adds to it.
pub proof fn lemma_step_only_appends(state: AggregatorView, event: EventView)
    requires
        !(state.status is LaunchError),
        !(event is LaunchError),
    ensures
        step_spec(state, event).stdout == state.stdout + stdout_part(event),
        step_spec(state, event).stderr == state.stderr + stderr_part(event),
        !(step_spec(state, event).status is LaunchError),
{
    assert(state.stdout + Seq::<char>::empty() =~= state.stdout);
    assert(state.stderr + Seq::<char>::empty() =~= state.stderr);
}

/// Every stream has exactly one result: it succeeds or it fails, and which
/// of the two is decided by its events alone.
pub proof fn lemma_one_result(events: Seq<EventView>)
    ensures
        stream_result(events) is Ok <==> no_launch_error(events) && every_exit_clean(events),
        stream_result(events) is Err <==> !(no_launch_error(events) && every_exit_clean(events)),
{
    lemma_first_launch_error(events);
    lemma_failed_exit_on_record(events);
    lemma_exit_status_kind(events);
}

} // verus!
