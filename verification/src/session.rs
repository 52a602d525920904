//! One decode session: the state that the engine's threads and the caller's
//! thread share, and the one place where callbacks are let through.
//!
//! The model is a state machine. Every method of [`DecodeSession`] is one
//! event of [`Event`]; [`step`] says what the event does to the state and which
//! callback, if any, it lets through.

use crate::bus::{bus_error, bus_failure, BusMessage, BusView};
use crate::clock::{offset_nanos, seek_position};
use crate::emitter::{
    format_view, judge, pull_view, verdict_of, Flow, SampleReport, SampleView, Verdict,
    VerdictView,
};
use crate::error::{AudioDecoderError, ErrorKind};
use crate::callbacks::{callback_view, Callback, CallbackView};
use crate::format::{
    probe, probe_outcome, AudioFormatInfo, FormatModel, SourcePadReport, SourcePadView,
};
use crate::wiring::SetupStep;
use vstd::prelude::*;

verus! {

/// The run state of a session.
#[derive(Debug, Clone, Copy, PartialEq, Eq, Structural)]
pub enum Phase {
    /// Nothing runs yet; the pipeline is being assembled.
    Idle,
    /// The engine has paused the pipeline.
    Paused,
    /// The engine plays; blocks flow.
    Playing,
    /// The source has ended and `eos` was called.
    Eos,
    /// The session has failed and `error` was called.
    Error,
    /// The pipeline has been torn down.
    Stopped,
}

impl Phase {
    /// Whether callbacks may still be made: the session has neither ended nor
    /// been stopped.
    pub open spec fn is_live(self) -> bool {
        self is Idle || self is Paused || self is Playing
    }
}

/// What the caller's thread is to do next.
#[derive(Debug, Clone, Copy, PartialEq, Eq, Structural)]
pub enum Directive {
    /// Perform this step and report that it is done, or report its failure.
    Perform(SetupStep),
    /// Block until a terminal callback has been made.
    AwaitCompletion,
    /// Release the pipeline, then report the stop.
    Teardown,
    /// Return to the caller.
    Finished,
}

/// What to do with the pad of a discovered channel.
#[derive(Debug, Clone, Copy, PartialEq, Eq, Structural)]
pub enum WireDecision {
    /// Attach a sink to the pad.
    Wire,
    /// Leave the pad alone: it is wired already, every channel of the format
    /// has its sink, or the session is over.
    Skip,
    /// The pipeline is gone: give up this attempt.
    Abort,
}

/// The mathematical value of a [`DecodeSession`].
pub struct SessionModel {
    /// Where decoding starts, in milliseconds, if the caller set an offset.
    pub start_millis: Option<u64>,
    /// The sample rate that the caller asked for.
    pub target_rate: u32,
    pub phase: Phase,
    /// The setup step that comes next; `None` once the pipeline plays.
    pub cursor: Option<SetupStep>,
    /// The format, once discovered.
    pub format: Option<FormatModel>,
    /// The names of the channel pads that have their sink, in the order in
    /// which they were wired.
    pub wired: Seq<Seq<char>>,
}

/// What can happen to a session.
pub enum Event {
    /// The caller's thread has performed a setup step.
    StepDone(SetupStep),
    /// Some component has failed.
    Fail(ErrorKind),
    /// The source has grown a pad.
    SourcePad(SourcePadView),
    /// The channel splitter has grown the pad of a channel.
    ChannelPad { pipeline_alive: bool, pad: Seq<char> },
    /// An emitter has pulled; `None` where the pull yielded no sample.
    Sample(Option<SampleView>),
    /// An emitter has a readable block for the channel with this index.
    Deliver(u32),
    /// The bus has a message.
    Bus(BusView),
    /// The pipeline has been released.
    Stop,
}

impl SessionModel {
    /// A session before anything has happened.
    pub open spec fn init(start_millis: Option<u64>, target_rate: u32) -> SessionModel {
        SessionModel {
            start_millis,
            target_rate,
            phase: Phase::Idle,
            cursor: Some(SetupStep::CreateSource),
            format: None,
            wired: Seq::empty(),
        }
    }

    /// What holds of every session that a fresh one can become: no pad is
    /// wired twice, no more pads are wired than the format has channels, and
    /// the phase agrees with the setup step that comes next.
    pub open spec fn wf(self) -> bool {
        &&& self.wired.no_duplicates()
        &&& self.format is None ==> self.wired.len() == 0
        &&& self.format matches Some(format) ==> format.wf() && self.wired.len()
            <= format.channel_count
        &&& self.phase is Idle ==> self.cursor is Some && self.cursor.unwrap().rank()
            <= SetupStep::Pause.rank()
        &&& self.phase is Paused ==> self.cursor is Some && self.cursor.unwrap().rank()
            > SetupStep::Pause.rank()
        &&& self.phase is Playing ==> self.cursor is None
    }

    /// The session with another phase.
    pub open spec fn with_phase(self, phase: Phase) -> SessionModel {
        SessionModel { phase, ..self }
    }

    /// A failure seeks the terminal callback: a live session fails and lets
    /// `error` through; a session that is over swallows it.
    pub open spec fn failing(self, kind: ErrorKind) -> (SessionModel, Option<CallbackView>) {
        if self.phase.is_live() {
            (self.with_phase(Phase::Error), Some(CallbackView::Error(kind)))
        } else {
            (self, None)
        }
    }

    /// The end of the stream seeks the terminal callback in the same way. It
    /// is taken in every live phase: the engine may play, and end, before the
    /// caller's thread has recorded that it plays.
    pub open spec fn ending(self) -> (SessionModel, Option<CallbackView>) {
        if self.phase.is_live() {
            (self.with_phase(Phase::Eos), Some(CallbackView::Eos))
        } else {
            (self, None)
        }
    }

    /// What to do with the channel pad named `pad`.
    pub open spec fn wire_decision(self, pipeline_alive: bool, pad: Seq<char>) -> WireDecision {
        if !pipeline_alive {
            WireDecision::Abort
        } else if self.phase.is_live() && self.format is Some && self.wired.len()
            < self.format.unwrap().channel_count && !self.wired.contains(pad) {
            WireDecision::Wire
        } else {
            WireDecision::Skip
        }
    }

    /// What the caller's thread is to do next.
    pub open spec fn directive(self) -> Directive {
        match self.phase {
            Phase::Stopped => Directive::Finished,
            Phase::Eos => Directive::Teardown,
            Phase::Error => Directive::Teardown,
            _ => match self.cursor {
                Some(step) => Directive::Perform(step),
                None => Directive::AwaitCompletion,
            },
        }
    }
}

/// The phase after a setup step has been performed in `phase`.
pub open spec fn phase_after(phase: Phase, step: SetupStep) -> Phase {
    match step {
        SetupStep::Pause => Phase::Paused,
        SetupStep::Play => Phase::Playing,
        _ => phase,
    }
}

/// One event: the state after it and the callback that it lets through.
///
/// - A setup step counts only while the session is live and only if it is the
///   step that comes next. `Pause` and `Play` move the phase.
/// - A failure, from whatever component, and the end of the stream seek the
///   terminal callback; the first one gets it.
/// - The first source pad of a live session settles the format: `ready` with
///   the channel count, or the failure of the probe. Later pads change nothing.
/// - A channel pad is wired once, while the session is live and the format
///   has a channel left without a sink. A pad whose pipeline is gone counts as
///   a failure.
/// - A pull changes the session only where it is judged a failure: a pull
///   that yielded no sample, or a sample that cannot be used.
/// - A block is let through as `progress` while the session is live, the
///   format is known and the index lies below the channel count.
/// - A stop ends everything.
pub open spec fn step(state: SessionModel, event: Event) -> (SessionModel, Option<CallbackView>) {
    match event {
        Event::StepDone(done) => if state.phase.is_live() && state.cursor == Some(done) {
            (
                SessionModel {
                    phase: phase_after(state.phase, done),
                    cursor: done.successor(state.start_millis is Some),
                    ..state
                },
                None,
            )
        } else {
            (state, None)
        },
        Event::Fail(kind) => state.failing(kind),
        Event::SourcePad(report) => if state.phase.is_live() && state.format is None {
            match probe_outcome(report) {
                Ok(format) => (
                    SessionModel { format: Some(format), ..state },
                    Some(CallbackView::Ready(format.channel_count)),
                ),
                Err(kind) => state.failing(kind),
            }
        } else {
            (state, None)
        },
        Event::ChannelPad { pipeline_alive, pad } => match state.wire_decision(
            pipeline_alive,
            pad,
        ) {
            WireDecision::Abort => state.failing(ErrorKind::Backend("Pipeline failedupgrade"@)),
            WireDecision::Wire => (SessionModel { wired: state.wired.push(pad), ..state }, None),
            WireDecision::Skip => (state, None),
        },
        Event::Sample(pull) => match verdict_of(state.format, state.start_millis, pull) {
            VerdictView::Failed(kind) => state.failing(kind),
            _ => (state, None),
        },
        Event::Deliver(channel) => if state.phase.is_live() && state.format is Some && channel
            < state.format.unwrap().channel_count {
            (state, Some(CallbackView::Progress(channel)))
        } else {
            (state, None)
        },
        Event::Bus(message) => match message {
            BusView::Error { debug } => state.failing(bus_failure(debug)),
            BusView::Eos => state.ending(),
            BusView::Other => (state, None),
        },
        Event::Stop => (state.with_phase(Phase::Stopped), None),
    }
}

/// What a session answers to a pad of the source.
#[derive(Debug, PartialEq, Eq)]
pub struct SourceReaction {
    /// The callback to make, if any.
    pub callback: Option<Callback>,
    /// Where the pad has settled the format: the format that the normalize
    /// stage, which is now to be attached to the pad, has to produce.
    pub output: Option<AudioFormatInfo>,
}

/// What a session answers to the pad of a channel.
#[derive(Debug, PartialEq, Eq)]
pub struct ChannelReaction {
    pub decision: WireDecision,
    /// The callback to make, if any.
    pub callback: Option<Callback>,
}

/// What a session answers to a pull.
#[derive(Debug, PartialEq, Eq)]
pub struct SampleReaction {
    /// What to hand back to the engine.
    pub flow: Flow,
    /// The channel indices under which to deliver the block, one delivery
    /// each; empty where nothing is to be delivered.
    pub channels: Vec<u32>,
    /// The callback to make, if any.
    pub callback: Option<Callback>,
}

/// The state of one decode session.
pub struct DecodeSession {
    start_millis: Option<u64>,
    target_rate: u32,
    phase: Phase,
    cursor: Option<SetupStep>,
    format: Option<AudioFormatInfo>,
    wired: Vec<String>,
}

impl View for DecodeSession {
    type V = SessionModel;

    closed spec fn view(&self) -> SessionModel {
        SessionModel {
            start_millis: self.start_millis,
            target_rate: self.target_rate,
            phase: self.phase,
            cursor: self.cursor,
            format: match self.format {
                Some(format) => Some(format@),
                None => None,
            },
            wired: names_view(self.wired@),
        }
    }
}

/// The names in a list, each as a sequence of characters.
pub open spec fn names_view(names: Seq<String>) -> Seq<Seq<char>> {
    Seq::new(names.len(), |i: int| names[i]@)
}

/// Whether `names` holds `name`.
fn holds(names: &Vec<String>, name: &str) -> (found: bool)
    ensures
        found == names_view(names@).contains(name@),
{
    let wanted = name.to_owned();
    let mut i: usize = 0;
    while i < names.len()
        invariant
            i <= names.len(),
            wanted@ == name@,
            forall|k: int| 0 <= k < i ==> names_view(names@)[k] != name@,
        decreases names.len() - i,
    {
        if names[i] == wanted {
            assert(names_view(names@)[i as int] == name@);
            return true;
        }
        i = i + 1;
    }
    false
}

impl DecodeSession {
    /// A session for a source that starts at `start_millis`, if set, and is
    /// resampled to `target_rate`.
    pub fn new(start_millis: Option<u64>, target_rate: u32) -> (session: DecodeSession)
        ensures
            session@ == SessionModel::init(start_millis, target_rate),
            session@.wf(),
    {
        let session = DecodeSession {
            start_millis,
            target_rate,
            phase: Phase::Idle,
            cursor: Some(SetupStep::CreateSource),
            format: None,
            wired: Vec::new(),
        };
        assert(session@.wired =~= Seq::empty());
        session
    }

    /// The run state.
    pub fn phase(&self) -> (phase: Phase)
        ensures
            phase == self@.phase,
    {
        self.phase
    }

    /// Whether callbacks may still be made.
    pub fn is_live(&self) -> (live: bool)
        ensures
            live == self@.phase.is_live(),
    {
        match self.phase {
            Phase::Idle => true,
            Phase::Paused => true,
            Phase::Playing => true,
            _ => false,
        }
    }

    /// The start offset in milliseconds, if the caller set one.
    pub fn start_millis(&self) -> (start: Option<u64>)
        ensures
            start == self@.start_millis,
    {
        self.start_millis
    }

    /// The sample rate that the caller asked for.
    pub fn target_rate(&self) -> (rate: u32)
        ensures
            rate == self@.target_rate,
    {
        self.target_rate
    }

    /// The format, once discovered.
    pub fn format(&self) -> (format: Option<&AudioFormatInfo>)
        ensures
            format_view(format) == self@.format,
    {
        self.format.as_ref()
    }

    /// The format that the normalize stage produces: the discovered layout at
    /// the sample rate that the caller asked for. `None` until the format is
    /// known.
    pub fn output_format(&self) -> (output: Option<AudioFormatInfo>)
        ensures
            output is Some <==> self@.format is Some,
            output matches Some(format) ==> format@ == self@.format.unwrap().at_rate(
                self@.target_rate,
            ),
    {
        match &self.format {
            Some(format) => Some(format.at_rate(self.target_rate)),
            None => None,
        }
    }

    /// Whether the channel pad named `pad` has its sink.
    pub fn is_wired(&self, pad: &str) -> (wired: bool)
        ensures
            wired == self@.wired.contains(pad@),
    {
        holds(&self.wired, pad)
    }

    /// The number of channel pads that have their sink.
    pub fn wired_count(&self) -> (count: usize)
        ensures
            count == self@.wired.len(),
    {
        self.wired.len()
    }

    /// The position to seek to before playing, in nanoseconds: the start
    /// offset, where the caller set one and it can be represented.
    pub fn seek_target(&self) -> (position: Option<u64>)
        ensures
            position is Some <==> self@.start_millis is Some && offset_nanos(
                self@.start_millis.unwrap(),
            ) <= u64::MAX,
            position matches Some(nanos) ==> nanos == offset_nanos(self@.start_millis.unwrap()),
    {
        match self.start_millis {
            Some(millis) => seek_position(millis),
            None => None,
        }
    }

    /// What the caller's thread is to do next.
    pub fn directive(&self) -> (directive: Directive)
        ensures
            directive == self@.directive(),
    {
        match self.phase {
            Phase::Stopped => Directive::Finished,
            Phase::Eos => Directive::Teardown,
            Phase::Error => Directive::Teardown,
            _ => match self.cursor {
                Some(step) => Directive::Perform(step),
                None => Directive::AwaitCompletion,
            },
        }
    }

    /// Records that the caller's thread has performed `done`.
    pub fn step_done(&mut self, done: SetupStep)
        ensures
            final(self)@ == step(old(self)@, Event::StepDone(done)).0,
    {
        if self.is_live() && self.cursor == Some(done) {
            self.cursor = done.next(self.start_millis.is_some());
            match done {
                SetupStep::Pause => {
                    self.phase = Phase::Paused;
                },
                SetupStep::Play => {
                    self.phase = Phase::Playing;
                },
                _ => {},
            }
        }
    }

    /// Reports a failure of some component. The result is the `error` callback
    /// to make, if this failure is the one that ends the session.
    pub fn fail(&mut self, error: AudioDecoderError) -> (callback: Option<Callback>)
        ensures
            final(self)@ == step(old(self)@, Event::Fail(error@)).0,
            callback_view(callback) == step(old(self)@, Event::Fail(error@)).1,
    {
        if self.is_live() {
            self.phase = Phase::Error;
            Some(Callback::Error(error))
        } else {
            None
        }
    }

    /// Reports the end of the stream. The result is the `eos` callback to
    /// make, if this is what ends the session.
    pub fn end_of_stream(&mut self) -> (callback: Option<Callback>)
        ensures
            final(self)@ == step(old(self)@, Event::Bus(BusView::Eos)).0,
            callback_view(callback) == step(old(self)@, Event::Bus(BusView::Eos)).1,
    {
        if self.is_live() {
            self.phase = Phase::Eos;
            Some(Callback::Eos)
        } else {
            None
        }
    }

    /// Handles a new pad of the source: the format probe. The callback is
    /// `ready` with the channel count where the pad settles the format, `error`
    /// where the probe fails, nothing where the format is settled already or
    /// the session is over. Where the pad settles the format, and only there,
    /// the normalize stage is to be attached: its output is the discovered
    /// layout at the sample rate that the caller asked for.
    pub fn on_source_pad(&mut self, report: SourcePadReport) -> (reaction: SourceReaction)
        ensures
            final(self)@ == step(old(self)@, Event::SourcePad(report@)).0,
            callback_view(reaction.callback) == step(old(self)@, Event::SourcePad(report@)).1,
            reaction.output is Some <==> reaction.callback matches Some(Callback::Ready(_)),
            reaction.output matches Some(output) ==> final(self)@.format is Some && output@
                == final(self)@.format.unwrap().at_rate(old(self)@.target_rate),
    {
        if !self.is_live() || self.format.is_some() {
            return SourceReaction { callback: None, output: None };
        }
        match probe(report) {
            Ok(format) => {
                let channels: u32 = format.channel_count();
                let output = format.at_rate(self.target_rate);
                self.format = Some(format);
                SourceReaction { callback: Some(Callback::Ready(channels)), output: Some(output) }
            },
            Err(error) => {
                let callback = self.fail(error);
                SourceReaction { callback, output: None }
            },
        }
    }

    /// Handles the pad of a discovered channel, known by its name.
    pub fn on_channel_pad(&mut self, pipeline_alive: bool, pad: &str) -> (reaction:
        ChannelReaction)
        ensures
            final(self)@ == step(
                old(self)@,
                Event::ChannelPad { pipeline_alive, pad: pad@ },
            ).0,
            callback_view(reaction.callback) == step(
                old(self)@,
                Event::ChannelPad { pipeline_alive, pad: pad@ },
            ).1,
            reaction.decision == old(self)@.wire_decision(pipeline_alive, pad@),
    {
        if !pipeline_alive {
            let callback = self.fail(AudioDecoderError::backend("Pipeline failedupgrade"));
            return ChannelReaction { decision: WireDecision::Abort, callback };
        }
        let room = match &self.format {
            Some(format) => self.wired.len() < format.channel_count() as usize,
            None => false,
        };
        if self.is_live() && room && !holds(&self.wired, pad) {
            self.wired.push(pad.to_owned());
            assert(names_view(self.wired@) =~= names_view(old(self).wired@).push(pad@));
            ChannelReaction { decision: WireDecision::Wire, callback: None }
        } else {
            ChannelReaction { decision: WireDecision::Skip, callback: None }
        }
    }

    /// Handles what an emitter has pulled: the verdict on the pull, and the
    /// failure of the session where the verdict is one. A pull that yielded no
    /// sample is such a failure.
    pub fn on_sample(&mut self, pull: Option<SampleReport>) -> (reaction: SampleReaction)
        ensures
            final(self)@ == step(old(self)@, Event::Sample(pull_view(pull))).0,
            callback_view(reaction.callback) == step(
                old(self)@,
                Event::Sample(pull_view(pull)),
            ).1,
            reaction.flow == verdict_of(
                old(self)@.format,
                old(self)@.start_millis,
                pull_view(pull),
            ).flow(),
            reaction.channels@ == verdict_of(
                old(self)@.format,
                old(self)@.start_millis,
                pull_view(pull),
            ).deliveries(),
    {
        let verdict = judge(self.format.as_ref(), self.start_millis, pull);
        let flow = verdict.flow();
        match verdict {
            Verdict::Failed(error) => {
                let callback = self.fail(error);
                SampleReaction { flow, channels: Vec::new(), callback }
            },
            Verdict::Deliver(channels) => SampleReaction { flow, channels, callback: None },
            _ => SampleReaction { flow, channels: Vec::new(), callback: None },
        }
    }

    /// Handles a block whose memory cannot be read: the session fails with
    /// `BufferReadFailed`, the emitter stops, and nothing more of the block is
    /// delivered.
    pub fn on_unreadable_block(&mut self) -> (reaction: SampleReaction)
        ensures
            final(self)@ == step(old(self)@, Event::Fail(ErrorKind::BufferReadFailed)).0,
            callback_view(reaction.callback) == step(
                old(self)@,
                Event::Fail(ErrorKind::BufferReadFailed),
            ).1,
            reaction.flow == Flow::Error,
            reaction.channels@ == Seq::<u32>::empty(),
    {
        let callback = self.fail(AudioDecoderError::BufferReadFailed);
        SampleReaction { flow: Flow::Error, channels: Vec::new(), callback }
    }

    /// Asks to deliver a block for `channel`. The result is the `progress`
    /// callback to make, if the block may be delivered.
    pub fn deliver(&self, channel: u32) -> (callback: Option<Callback>)
        ensures
            self@ == step(self@, Event::Deliver(channel)).0,
            callback_view(callback) == step(self@, Event::Deliver(channel)).1,
    {
        if !self.is_live() {
            return None;
        }
        match &self.format {
            Some(format) => if channel < format.channel_count() {
                Some(Callback::Progress(channel))
            } else {
                None
            },
            None => None,
        }
    }

    /// Handles a message from the bus.
    pub fn on_bus_message(&mut self, message: BusMessage) -> (callback: Option<Callback>)
        ensures
            final(self)@ == step(old(self)@, Event::Bus(message@)).0,
            callback_view(callback) == step(old(self)@, Event::Bus(message@)).1,
    {
        match message {
            BusMessage::Error { debug } => self.fail(bus_error(debug)),
            BusMessage::Eos => self.end_of_stream(),
            BusMessage::Other => None,
        }
    }

    /// Records that the pipeline has been released. A second stop changes
    /// nothing.
    pub fn stop(&mut self)
        ensures
            final(self)@ == step(old(self)@, Event::Stop).0,
            final(self)@.phase == Phase::Stopped,
    {
        self.phase = Phase::Stopped;
    }
}

} // verus!
