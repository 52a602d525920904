//! What holds of every session, whatever the engine and the caller do.
//!
//! A session is run by feeding it events. The laws speak of the callbacks
//! that a fresh session lets through in the course of any sequence of events.

use crate::clock::offset_nanos;
use crate::bus::{bus_failure, BusView};
use crate::emitter::{verdict_of, Flow, SampleView, VerdictView};
use crate::error::ErrorKind;
use crate::callbacks::CallbackView;
use crate::format::{probe_outcome, SourcePadView};
use crate::session::{step, Directive, Event, Phase, SessionModel, WireDecision};
use vstd::prelude::*;

verus! {

/// The state of a session that started in `start` after `events`.
pub open spec fn state_after(start: SessionModel, events: Seq<Event>) -> SessionModel
    decreases events.len(),
{
    if events.len() == 0 {
        start
    } else {
        step(state_after(start, events.drop_last()), events.last()).0
    }
}

/// The callbacks that a session that started in `start` lets through in the
/// course of `events`, in order.
pub open spec fn trace_of(start: SessionModel, events: Seq<Event>) -> Seq<CallbackView>
    decreases events.len(),
{
    if events.len() == 0 {
        Seq::empty()
    } else {
        let before = trace_of(start, events.drop_last());
        match step(state_after(start, events.drop_last()), events.last()).1 {
            Some(callback) => before.push(callback),
            None => before,
        }
    }
}

/// How far a phase lies along the way from idle to stopped.
pub open spec fn phase_rank(phase: Phase) -> nat {
    match phase {
        Phase::Idle => 0,
        Phase::Paused => 1,
        Phase::Playing => 2,
        Phase::Eos => 3,
        Phase::Error => 3,
        Phase::Stopped => 4,
    }
}

/// Whether `trace[at]` is `ready` with `channels` channels, no other entry is
/// a `ready`, and every `progress` comes after it with an index below
/// `channels`.
pub open spec fn announces(trace: Seq<CallbackView>, at: int, channels: u32) -> bool {
    &&& 0 <= at < trace.len()
    &&& trace[at] == CallbackView::Ready(channels)
    &&& forall|i: int| 0 <= i < trace.len() && (#[trigger] trace[i]) is Ready ==> i == at
    &&& forall|i: int|
        0 <= i < trace.len() ==> ((#[trigger] trace[i]) matches CallbackView::Progress(channel)
            ==> at < i && channel < channels)
}

/// What ties the state of a session to the callbacks that it has let through.
spec fn consistent(state: SessionModel, trace: Seq<CallbackView>) -> bool {
    &&& state.wf()
    &&& state.format is None ==> forall|i: int|
        0 <= i < trace.len() ==> !((#[trigger] trace[i]) is Ready) && !(trace[i] is Progress)
    &&& state.format matches Some(format) ==> exists|at: int|
        announces(trace, at, format.channel_count)
    &&& state.phase.is_live() ==> forall|i: int|
        0 <= i < trace.len() ==> !(#[trigger] trace[i]).is_terminal()
    &&& forall|i: int|
        0 <= i < trace.len() && (#[trigger] trace[i]).is_terminal() ==> i == trace.len() - 1
}

/// One event keeps state and callbacks consistent.
proof fn lemma_step_consistent(state: SessionModel, trace: Seq<CallbackView>, event: Event)
    requires
        consistent(state, trace),
    ensures
        consistent(
            step(state, event).0,
            match step(state, event).1 {
                Some(callback) => trace.push(callback),
                None => trace,
            },
        ),
{
    let (next, callback) = step(state, event);
    let after = match callback {
        Some(callback) => trace.push(callback),
        None => trace,
    };
    assert(forall|i: int| 0 <= i < trace.len() ==> after[i] == trace[i]);
    if state.format is Some {
        let channels = state.format.unwrap().channel_count;
        let at = choose|at: int| announces(trace, at, channels);
        assert(next.format == state.format);
        assert(announces(after, at, channels)) by {
            assert(after[at] == trace[at]);
        }
    } else if next.format is Some {
        let channels = next.format.unwrap().channel_count;
        assert(callback == Some(CallbackView::Ready(channels)));
        assert(announces(after, trace.len() as int, channels));
    }
}

/// Every run of a fresh session keeps state and callbacks consistent.
proof fn lemma_run_consistent(start_millis: Option<u64>, target_rate: u32, events: Seq<Event>)
    ensures
        consistent(
            state_after(SessionModel::init(start_millis, target_rate), events),
            trace_of(SessionModel::init(start_millis, target_rate), events),
        ),
    decreases events.len(),
{
    let start = SessionModel::init(start_millis, target_rate);
    if events.len() > 0 {
        lemma_run_consistent(start_millis, target_rate, events.drop_last());
        lemma_step_consistent(
            state_after(start, events.drop_last()),
            trace_of(start, events.drop_last()),
            events.last(),
        );
    }
}

/// `ready` comes at most once, and before every `progress`: in the callbacks
/// of any run, no two entries are `ready`, and every `progress` has a `ready`
/// somewhere before it.
pub proof fn lemma_ready_once_and_first(
    start_millis: Option<u64>,
    target_rate: u32,
    events: Seq<Event>,
)
    ensures
        ({
            let trace = trace_of(SessionModel::init(start_millis, target_rate), events);
            &&& forall|i: int, j: int|
                0 <= i < j < trace.len() ==> !((#[trigger] trace[i]) is Ready && (
                #[trigger] trace[j]) is Ready)
            &&& forall|j: int|
                0 <= j < trace.len() && (#[trigger] trace[j]) is Progress ==> exists|i: int|
                    0 <= i < j && (#[trigger] trace[i]) is Ready
        }),
{
    let start = SessionModel::init(start_millis, target_rate);
    let state = state_after(start, events);
    let trace = trace_of(start, events);
    lemma_run_consistent(start_millis, target_rate, events);
    if state.format is Some {
        let channels = state.format.unwrap().channel_count;
        let at = choose|at: int| announces(trace, at, channels);
        assert forall|j: int|
            0 <= j < trace.len() && (#[trigger] trace[j]) is Progress implies exists|i: int|
            0 <= i < j && (#[trigger] trace[i]) is Ready by {
            assert(trace[at] is Ready);
        }
    }
}

/// `ready` tells the format: in any run, `ready` has been called exactly when
/// the format is settled, then exactly once, with the channel count of the
/// format, and before every `progress`.
pub proof fn lemma_ready_tells_the_format(
    start_millis: Option<u64>,
    target_rate: u32,
    events: Seq<Event>,
)
    ensures
        ({
            let state = state_after(SessionModel::init(start_millis, target_rate), events);
            let trace = trace_of(SessionModel::init(start_millis, target_rate), events);
            &&& state.format is None ==> forall|i: int|
                0 <= i < trace.len() ==> !((#[trigger] trace[i]) is Ready)
            &&& state.format matches Some(format) ==> exists|at: int|
                announces(trace, at, format.channel_count)
        }),
{
    lemma_run_consistent(start_millis, target_rate, events);
}

/// A source that probes well is announced: the first pad of a live session
/// whose report yields a format lets `ready` through with the channel count,
/// and settles that format.
pub proof fn lemma_valid_source_is_announced(state: SessionModel, report: SourcePadView)
    requires
        state.phase.is_live(),
        state.format is None,
    ensures
        probe_outcome(report) matches Ok(format) ==> {
            &&& step(state, Event::SourcePad(report)).1 == Some(
                CallbackView::Ready(format.channel_count),
            )
            &&& step(state, Event::SourcePad(report)).0.format == Some(format)
        },
{
}

/// The terminal callback comes at most once and nothing follows it: in the
/// callbacks of any run, an `eos` or `error` can only be the last entry.
pub proof fn lemma_terminal_is_last(
    start_millis: Option<u64>,
    target_rate: u32,
    events: Seq<Event>,
)
    ensures
        ({
            let trace = trace_of(SessionModel::init(start_millis, target_rate), events);
            forall|i: int|
                0 <= i < trace.len() && (#[trigger] trace[i]).is_terminal() ==> i == trace.len()
                    - 1
        }),
{
    lemma_run_consistent(start_millis, target_rate, events);
}

/// Channel indices stay in range: in the callbacks of any run, every
/// `progress` carries an index below the channel count that the `ready`
/// before it announced, and that count is the channel count of the format.
pub proof fn lemma_progress_in_range(
    start_millis: Option<u64>,
    target_rate: u32,
    events: Seq<Event>,
)
    ensures
        ({
            let state = state_after(SessionModel::init(start_millis, target_rate), events);
            let trace = trace_of(SessionModel::init(start_millis, target_rate), events);
            forall|j: int|
                0 <= j < trace.len() ==> ((#[trigger] trace[j]) matches CallbackView::Progress(
                    channel,
                ) ==> {
                    &&& state.format is Some
                    &&& state.format.unwrap().wf()
                    &&& channel < state.format.unwrap().channel_count
                    &&& exists|i: int|
                        0 <= i < j && (#[trigger] trace[i]) == CallbackView::Ready(
                            state.format.unwrap().channel_count,
                        )
                })
        }),
{
    let start = SessionModel::init(start_millis, target_rate);
    let state = state_after(start, events);
    let trace = trace_of(start, events);
    lemma_run_consistent(start_millis, target_rate, events);
    if state.format is Some {
        let channels = state.format.unwrap().channel_count;
        let at = choose|at: int| announces(trace, at, channels);
        assert forall|j: int| 0 <= j < trace.len() implies (
        (#[trigger] trace[j]) matches CallbackView::Progress(channel) ==> {
            &&& channel < channels
            &&& exists|i: int|
                0 <= i < j && (#[trigger] trace[i]) == CallbackView::Ready(channels)
        }) by {
            assert(trace[at] == CallbackView::Ready(channels));
        }
    }
}

/// The format is settled once: no event changes a format that is known, so
/// the position that a channel index stands for never changes.
pub proof fn lemma_format_is_settled(state: SessionModel, events: Seq<Event>)
    requires
        state.format is Some,
    ensures
        state_after(state, events).format == state.format,
    decreases events.len(),
{
    if events.len() > 0 {
        lemma_format_is_settled(state, events.drop_last());
    }
}

/// Well-formedness is kept: no event takes a well-formed session to one that
/// is not.
pub proof fn lemma_step_keeps_wf(state: SessionModel, event: Event)
    requires
        state.wf(),
    ensures
        step(state, event).0.wf(),
{
}

/// Every state that a fresh session can reach is well-formed.
pub proof fn lemma_reachable_is_wf(start_millis: Option<u64>, target_rate: u32, events: Seq<Event>)
    ensures
        state_after(SessionModel::init(start_millis, target_rate), events).wf(),
{
    lemma_run_consistent(start_millis, target_rate, events);
}

/// A session only moves forward: no event takes it to an earlier phase, and
/// the setup script is never taken up again at an earlier step.
pub proof fn lemma_phase_moves_forward(state: SessionModel, event: Event)
    requires
        state.wf(),
    ensures
        phase_rank(state.phase) <= phase_rank(step(state, event).0.phase),
        state.cursor is None ==> step(state, event).0.cursor is None,
        state.cursor is Some && step(state, event).0.cursor is Some ==> state.cursor.unwrap().rank()
            <= step(state, event).0.cursor.unwrap().rank(),
{
}

/// The terminal callback is the end of the session, and the only way to end
/// it but a stop: an event lets `eos` through exactly when it takes a live
/// session to `Eos`, and `error` exactly when it takes a live session to
/// `Error`; from then on the caller's thread is directed to tear down.
pub proof fn lemma_terminal_callback_ends_session(state: SessionModel, event: Event)
    ensures
        step(state, event).1 == Some(CallbackView::Eos) <==> state.phase.is_live() && step(
            state,
            event,
        ).0.phase is Eos,
        step(state, event).1 matches Some(CallbackView::Error(_)) <==> state.phase.is_live()
            && step(state, event).0.phase is Error,
        step(state, event).1 matches Some(callback) && callback.is_terminal() ==> step(
            state,
            event,
        ).0.directive() == Directive::Teardown,
{
}

/// A channel pad is wired at most once: once it has its sink it keeps it, and
/// no later report of that pad is wired again.
pub proof fn lemma_wired_once(state: SessionModel, events: Seq<Event>, pad: Seq<char>)
    requires
        state.wired.contains(pad),
    ensures
        state_after(state, events).wired.contains(pad),
        forall|pipeline_alive: bool|
            state_after(state, events).wire_decision(pipeline_alive, pad) != WireDecision::Wire,
    decreases events.len(),
{
    if events.len() > 0 {
        lemma_wired_once(state, events.drop_last(), pad);
        let before = state_after(state, events.drop_last());
        let at = choose|i: int| 0 <= i < before.wired.len() && before.wired[i] == pad;
        assert(state_after(state, events).wired[at] == pad);
    }
}

/// No more channel pads are wired than the format has channels: in every
/// state that a fresh session can reach, the wired pads are distinct and at
/// most as many as the channels of the format.
pub proof fn lemma_wired_within_channels(
    start_millis: Option<u64>,
    target_rate: u32,
    events: Seq<Event>,
)
    ensures
        ({
            let state = state_after(SessionModel::init(start_millis, target_rate), events);
            &&& state.wired.no_duplicates()
            &&& state.format is None ==> state.wired.len() == 0
            &&& state.format matches Some(format) ==> state.wired.len() <= format.channel_count
        }),
{
    lemma_run_consistent(start_millis, target_rate, events);
}

/// Well-formedness is kept along any run.
pub proof fn lemma_keeps_wf(state: SessionModel, events: Seq<Event>)
    requires
        state.wf(),
    ensures
        state_after(state, events).wf(),
    decreases events.len(),
{
    if events.len() > 0 {
        lemma_keeps_wf(state, events.drop_last());
    }
}

/// No failure passes silently: whatever fails in a live session, be it a
/// component that reports a failure, a pull that yields no sample or a sample
/// that is judged a failure, or a failure on the bus, the event lets `error`
/// through with the kind of that failure and ends the session.
pub proof fn lemma_no_failure_is_silent(state: SessionModel, event: Event)
    requires
        state.phase.is_live(),
    ensures
        event matches Event::Fail(kind) ==> step(state, event).1 == Some(
            CallbackView::Error(kind),
        ),
        event matches Event::Sample(None) ==> step(state, event).1 == Some(
            CallbackView::Error(ErrorKind::InvalidSample),
        ),
        event matches Event::Sample(pull) ==> (verdict_of(state.format, state.start_millis, pull)
            matches VerdictView::Failed(kind) ==> step(state, event).1 == Some(
            CallbackView::Error(kind),
        )),
        event matches Event::Sample(pull) ==> (verdict_of(
            state.format,
            state.start_millis,
            pull,
        ).flow() == Flow::Error <==> step(state, event).1 is Some),
        event matches Event::Bus(BusView::Error { debug }) ==> step(state, event).1 == Some(
            CallbackView::Error(bus_failure(debug)),
        ),
        step(state, event).1 matches Some(CallbackView::Error(_)) ==> step(state, event).0.phase
            is Error,
{
}

/// A trimmed block is silent: a usable block stamped earlier than the start
/// offset changes nothing and lets no callback through.
pub proof fn lemma_trimmed_block_is_silent(state: SessionModel, sample: SampleView)
    requires
        state.start_millis is Some,
        sample.has_block,
        sample.has_format,
        sample.positions is Some,
        sample.pts is Some,
        sample.pts.unwrap() < offset_nanos(state.start_millis.unwrap()),
    ensures
        step(state, Event::Sample(Some(sample))) == (state, None::<CallbackView>),
{
}

/// Teardown is idempotent: a second stop changes nothing, and no stop lets a
/// callback through.
pub proof fn lemma_stop_is_idempotent(state: SessionModel)
    ensures
        step(state, Event::Stop).1 is None,
        step(step(state, Event::Stop).0, Event::Stop) == (
            step(state, Event::Stop).0,
            None::<CallbackView>,
        ),
        step(state, Event::Stop).0.directive() == Directive::Finished,
{
}

/// A session that is over stays over and is silent: once it has ended or been
/// stopped, no event makes it live again or lets a callback through, and a
/// stopped session stays stopped.
pub proof fn lemma_over_is_silent(state: SessionModel, event: Event)
    requires
        !state.phase.is_live(),
    ensures
        step(state, event).1 is None,
        !step(state, event).0.phase.is_live(),
        state.phase is Stopped ==> step(state, event).0.phase is Stopped,
{
}

} // verus!
