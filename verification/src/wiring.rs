//! The three scripts by which a session grows its pipeline: the source stage
//! and run states, the normalize stage once the format is known, and one sink
//! per discovered channel. Each script is a fixed order of engine operations;
//! what is decided here is that order and the error that a failed operation
//! stands for.

use crate::error::{AudioDecoderError, ErrorKind};
use vstd::prelude::*;

verus! {

/// Sinks hand blocks over as they come, without waiting for the clock.
pub const SINK_SYNC: bool = false;

/// Sinks call their emitter for every block.
pub const SINK_EMIT_SIGNALS: bool = true;

/// The number of blocks that a sink holds before the pipeline waits for the
/// sink's emitter.
pub const SINK_MAX_BUFFERS: u32 = 50;

/// Sinks hold back the end of the stream until their blocks have been taken.
pub const SINK_WAIT_ON_EOS: bool = true;

/// The channel splitter keeps the position of each channel that it splits off.
pub const KEEP_POSITIONS: bool = true;

/// The text that follows an element's name when the engine cannot create it.
pub open spec fn creation_failed(factory: Seq<char>) -> ErrorKind {
    ErrorKind::Backend(factory + " creation failed"@)
}

/// The failure of a step that creates the element `factory`.
fn creation_failure(factory: &str) -> (error: AudioDecoderError)
    ensures
        error@ == creation_failed(factory@),
{
    AudioDecoderError::backend_with(factory, " creation failed")
}

/// The operations that take a session from nothing to a playing pipeline.
#[derive(Debug, Clone, Copy, PartialEq, Eq, Structural)]
pub enum SetupStep {
    /// Create the element that reads and decodes the source.
    CreateSource,
    /// Point it at the source.
    SetUri,
    /// Put it into the pipeline.
    AddSource,
    /// Link the initial stage.
    LinkSource,
    /// Listen for the pad that appears once the format is known.
    WatchPads,
    /// Take the pipeline's message bus.
    TakeBus,
    /// Listen for failures and the end of the stream.
    WatchBus,
    /// Ask the engine to pause the pipeline.
    Pause,
    /// Wait until the pipeline has settled.
    AwaitPaused,
    /// Seek to the start offset.
    Seek,
    /// Ask the engine to play.
    Play,
}

impl SetupStep {
    /// The place of a step in the script.
    pub open spec fn rank(self) -> nat {
        match self {
            SetupStep::CreateSource => 0,
            SetupStep::SetUri => 1,
            SetupStep::AddSource => 2,
            SetupStep::LinkSource => 3,
            SetupStep::WatchPads => 4,
            SetupStep::TakeBus => 5,
            SetupStep::WatchBus => 6,
            SetupStep::Pause => 7,
            SetupStep::AwaitPaused => 8,
            SetupStep::Seek => 9,
            SetupStep::Play => 10,
        }
    }

    /// The step that follows; the seek is left out where the session has no
    /// start offset. Nothing follows `Play`.
    pub open spec fn successor(self, seeks: bool) -> Option<SetupStep> {
        match self {
            SetupStep::CreateSource => Some(SetupStep::SetUri),
            SetupStep::SetUri => Some(SetupStep::AddSource),
            SetupStep::AddSource => Some(SetupStep::LinkSource),
            SetupStep::LinkSource => Some(SetupStep::WatchPads),
            SetupStep::WatchPads => Some(SetupStep::TakeBus),
            SetupStep::TakeBus => Some(SetupStep::WatchBus),
            SetupStep::WatchBus => Some(SetupStep::Pause),
            SetupStep::Pause => Some(SetupStep::AwaitPaused),
            SetupStep::AwaitPaused => if seeks {
                Some(SetupStep::Seek)
            } else {
                Some(SetupStep::Play)
            },
            SetupStep::Seek => Some(SetupStep::Play),
            SetupStep::Play => None,
        }
    }

    /// The element that the step creates, if it creates one.
    pub open spec fn factory(self) -> Option<Seq<char>> {
        match self {
            SetupStep::CreateSource => Some("uridecodebin"@),
            _ => None,
        }
    }

    /// The error that a failure of the step stands for; `detail` is what the
    /// engine said. A step that creates an element fails under the element's
    /// name, whatever the engine said.
    pub open spec fn failure(self, detail: Seq<char>) -> ErrorKind {
        match self.factory() {
            Some(factory) => creation_failed(factory),
            None => match self {
                SetupStep::TakeBus => ErrorKind::Backend(
                    "Pipeline without bus. Shouldn't happen!"@,
                ),
                SetupStep::Pause => ErrorKind::StateChangeFailed,
                SetupStep::AwaitPaused => ErrorKind::Backend("Error retrieving pipeline state"@),
                SetupStep::Play => ErrorKind::StateChangeFailed,
                _ => ErrorKind::Backend(detail),
            },
        }
    }

    /// The first step of the script.
    pub fn first() -> (step: SetupStep)
        ensures
            step == SetupStep::CreateSource,
            step.rank() == 0,
    {
        SetupStep::CreateSource
    }

    /// The step that follows this one, if any.
    pub fn next(self, seeks: bool) -> (step: Option<SetupStep>)
        ensures
            step == self.successor(seeks),
            step matches Some(following) ==> following.rank() > self.rank(),
            step is None <==> self == SetupStep::Play,
    {
        match self {
            SetupStep::CreateSource => Some(SetupStep::SetUri),
            SetupStep::SetUri => Some(SetupStep::AddSource),
            SetupStep::AddSource => Some(SetupStep::LinkSource),
            SetupStep::LinkSource => Some(SetupStep::WatchPads),
            SetupStep::WatchPads => Some(SetupStep::TakeBus),
            SetupStep::TakeBus => Some(SetupStep::WatchBus),
            SetupStep::WatchBus => Some(SetupStep::Pause),
            SetupStep::Pause => Some(SetupStep::AwaitPaused),
            SetupStep::AwaitPaused => if seeks {
                Some(SetupStep::Seek)
            } else {
                Some(SetupStep::Play)
            },
            SetupStep::Seek => Some(SetupStep::Play),
            SetupStep::Play => None,
        }
    }

    /// The name of the element that the step creates, if it creates one.
    pub fn element(self) -> (name: Option<&'static str>)
        ensures
            name is Some <==> self.factory() is Some,
            name matches Some(text) ==> self.factory() == Some(text@),
    {
        match self {
            SetupStep::CreateSource => Some("uridecodebin"),
            _ => None,
        }
    }

    /// The error to report when the step has failed with the engine's words `detail`.
    pub fn fail(self, detail: &str) -> (error: AudioDecoderError)
        ensures
            error@ == self.failure(detail@),
    {
        match self.element() {
            Some(factory) => creation_failure(factory),
            None => match self {
                SetupStep::TakeBus => AudioDecoderError::backend(
                    "Pipeline without bus. Shouldn't happen!",
                ),
                SetupStep::Pause => AudioDecoderError::StateChangeFailed,
                SetupStep::AwaitPaused => AudioDecoderError::backend(
                    "Error retrieving pipeline state",
                ),
                SetupStep::Play => AudioDecoderError::StateChangeFailed,
                _ => AudioDecoderError::backend(detail),
            },
        }
    }
}

/// The operations that attach the normalize stage once the format is known:
/// convert, resample, constrain to the target format, split into channels.
#[derive(Debug, Clone, Copy, PartialEq, Eq, Structural)]
pub enum NormalizeStep {
    CreateConvert,
    CreateResample,
    CreateFilter,
    CreateDeinterleave,
    /// Listen for the pad of each channel.
    WatchChannelPads,
    /// Describe the target format: sample rate, channels, positions.
    DescribeOutput,
    /// Constrain the filter to the target format.
    ConstrainOutput,
    AddStages,
    LinkStages,
    SyncStages,
    /// Find the stage's input pad.
    FindInput,
    /// Link the source pad to it.
    LinkInput,
}

impl NormalizeStep {
    /// The place of a step in the script.
    pub open spec fn rank(self) -> nat {
        match self {
            NormalizeStep::CreateConvert => 0,
            NormalizeStep::CreateResample => 1,
            NormalizeStep::CreateFilter => 2,
            NormalizeStep::CreateDeinterleave => 3,
            NormalizeStep::WatchChannelPads => 4,
            NormalizeStep::DescribeOutput => 5,
            NormalizeStep::ConstrainOutput => 6,
            NormalizeStep::AddStages => 7,
            NormalizeStep::LinkStages => 8,
            NormalizeStep::SyncStages => 9,
            NormalizeStep::FindInput => 10,
            NormalizeStep::LinkInput => 11,
        }
    }

    /// The step that follows. Nothing follows `LinkInput`.
    pub open spec fn successor(self) -> Option<NormalizeStep> {
        match self {
            NormalizeStep::CreateConvert => Some(NormalizeStep::CreateResample),
            NormalizeStep::CreateResample => Some(NormalizeStep::CreateFilter),
            NormalizeStep::CreateFilter => Some(NormalizeStep::CreateDeinterleave),
            NormalizeStep::CreateDeinterleave => Some(NormalizeStep::WatchChannelPads),
            NormalizeStep::WatchChannelPads => Some(NormalizeStep::DescribeOutput),
            NormalizeStep::DescribeOutput => Some(NormalizeStep::ConstrainOutput),
            NormalizeStep::ConstrainOutput => Some(NormalizeStep::AddStages),
            NormalizeStep::AddStages => Some(NormalizeStep::LinkStages),
            NormalizeStep::LinkStages => Some(NormalizeStep::SyncStages),
            NormalizeStep::SyncStages => Some(NormalizeStep::FindInput),
            NormalizeStep::FindInput => Some(NormalizeStep::LinkInput),
            NormalizeStep::LinkInput => None,
        }
    }

    /// The element that the step creates, if it creates one.
    pub open spec fn factory(self) -> Option<Seq<char>> {
        match self {
            NormalizeStep::CreateConvert => Some("audioconvert"@),
            NormalizeStep::CreateResample => Some("audioresample"@),
            NormalizeStep::CreateFilter => Some("capsfilter"@),
            NormalizeStep::CreateDeinterleave => Some("deinterleave"@),
            _ => None,
        }
    }

    /// The error that a failure of the step stands for; `detail` is what the
    /// engine said. A step that creates an element fails under the element's
    /// name, whatever the engine said.
    pub open spec fn failure(self, detail: Seq<char>) -> ErrorKind {
        match self.factory() {
            Some(factory) => creation_failed(factory),
            None => match self {
                NormalizeStep::DescribeOutput => ErrorKind::Backend("AudioInfo failed"@),
                NormalizeStep::ConstrainOutput => ErrorKind::Backend("AudioInfo failed"@),
                NormalizeStep::FindInput => ErrorKind::Backend("Get static pad sink failed"@),
                NormalizeStep::LinkInput => ErrorKind::Backend("Sink pad link failed: "@ + detail),
                _ => ErrorKind::Backend(detail),
            },
        }
    }

    /// The first step of the script.
    pub fn first() -> (step: NormalizeStep)
        ensures
            step == NormalizeStep::CreateConvert,
            step.rank() == 0,
    {
        NormalizeStep::CreateConvert
    }

    /// The step that follows this one, if any.
    pub fn next(self) -> (step: Option<NormalizeStep>)
        ensures
            step == self.successor(),
            step matches Some(following) ==> following.rank() == self.rank() + 1,
            step is None <==> self == NormalizeStep::LinkInput,
    {
        match self {
            NormalizeStep::CreateConvert => Some(NormalizeStep::CreateResample),
            NormalizeStep::CreateResample => Some(NormalizeStep::CreateFilter),
            NormalizeStep::CreateFilter => Some(NormalizeStep::CreateDeinterleave),
            NormalizeStep::CreateDeinterleave => Some(NormalizeStep::WatchChannelPads),
            NormalizeStep::WatchChannelPads => Some(NormalizeStep::DescribeOutput),
            NormalizeStep::DescribeOutput => Some(NormalizeStep::ConstrainOutput),
            NormalizeStep::ConstrainOutput => Some(NormalizeStep::AddStages),
            NormalizeStep::AddStages => Some(NormalizeStep::LinkStages),
            NormalizeStep::LinkStages => Some(NormalizeStep::SyncStages),
            NormalizeStep::SyncStages => Some(NormalizeStep::FindInput),
            NormalizeStep::FindInput => Some(NormalizeStep::LinkInput),
            NormalizeStep::LinkInput => None,
        }
    }

    /// The name of the element that the step creates, if it creates one.
    pub fn element(self) -> (name: Option<&'static str>)
        ensures
            name is Some <==> self.factory() is Some,
            name matches Some(text) ==> self.factory() == Some(text@),
    {
        match self {
            NormalizeStep::CreateConvert => Some("audioconvert"),
            NormalizeStep::CreateResample => Some("audioresample"),
            NormalizeStep::CreateFilter => Some("capsfilter"),
            NormalizeStep::CreateDeinterleave => Some("deinterleave"),
            _ => None,
        }
    }

    /// The error to report when the step has failed with the engine's words `detail`.
    pub fn fail(self, detail: &str) -> (error: AudioDecoderError)
        ensures
            error@ == self.failure(detail@),
    {
        match self.element() {
            Some(factory) => creation_failure(factory),
            None => match self {
                NormalizeStep::DescribeOutput => AudioDecoderError::backend("AudioInfo failed"),
                NormalizeStep::ConstrainOutput => AudioDecoderError::backend("AudioInfo failed"),
                NormalizeStep::FindInput => AudioDecoderError::backend(
                    "Get static pad sink failed",
                ),
                NormalizeStep::LinkInput => AudioDecoderError::backend_with(
                    "Sink pad link failed: ",
                    detail,
                ),
                _ => AudioDecoderError::backend(detail),
            },
        }
    }
}

/// The operations that attach the sink of one channel: a queue and the sink
/// from which the channel's emitter pulls.
#[derive(Debug, Clone, Copy, PartialEq, Eq, Structural)]
pub enum SinkStep {
    CreateQueue,
    CreateSink,
    /// Hand the sink its emitter.
    InstallEmitter,
    AddStages,
    LinkStages,
    SyncStages,
    /// Find the queue's input pad.
    FindInput,
    /// Link the channel's pad to it.
    LinkInput,
}

impl SinkStep {
    /// The place of a step in the script.
    pub open spec fn rank(self) -> nat {
        match self {
            SinkStep::CreateQueue => 0,
            SinkStep::CreateSink => 1,
            SinkStep::InstallEmitter => 2,
            SinkStep::AddStages => 3,
            SinkStep::LinkStages => 4,
            SinkStep::SyncStages => 5,
            SinkStep::FindInput => 6,
            SinkStep::LinkInput => 7,
        }
    }

    /// The step that follows. Nothing follows `LinkInput`.
    pub open spec fn successor(self) -> Option<SinkStep> {
        match self {
            SinkStep::CreateQueue => Some(SinkStep::CreateSink),
            SinkStep::CreateSink => Some(SinkStep::InstallEmitter),
            SinkStep::InstallEmitter => Some(SinkStep::AddStages),
            SinkStep::AddStages => Some(SinkStep::LinkStages),
            SinkStep::LinkStages => Some(SinkStep::SyncStages),
            SinkStep::SyncStages => Some(SinkStep::FindInput),
            SinkStep::FindInput => Some(SinkStep::LinkInput),
            SinkStep::LinkInput => None,
        }
    }

    /// The element that the step creates, if it creates one.
    pub open spec fn factory(self) -> Option<Seq<char>> {
        match self {
            SinkStep::CreateQueue => Some("queue"@),
            SinkStep::CreateSink => Some("appsink"@),
            _ => None,
        }
    }

    /// The error that a failure of the step stands for; `detail` is what the
    /// engine said. A step that creates an element fails under the element's
    /// name, whatever the engine said.
    pub open spec fn failure(self, detail: Seq<char>) -> ErrorKind {
        match self.factory() {
            Some(factory) => creation_failed(factory),
            None => match self {
                SinkStep::FindInput => ErrorKind::Backend("Could not get static pad sink"@),
                SinkStep::LinkInput => ErrorKind::Backend("Sink pad link failed: "@ + detail),
                _ => ErrorKind::Backend(detail),
            },
        }
    }

    /// The first step of the script.
    pub fn first() -> (step: SinkStep)
        ensures
            step == SinkStep::CreateQueue,
            step.rank() == 0,
    {
        SinkStep::CreateQueue
    }

    /// The step that follows this one, if any.
    pub fn next(self) -> (step: Option<SinkStep>)
        ensures
            step == self.successor(),
            step matches Some(following) ==> following.rank() == self.rank() + 1,
            step is None <==> self == SinkStep::LinkInput,
    {
        match self {
            SinkStep::CreateQueue => Some(SinkStep::CreateSink),
            SinkStep::CreateSink => Some(SinkStep::InstallEmitter),
            SinkStep::InstallEmitter => Some(SinkStep::AddStages),
            SinkStep::AddStages => Some(SinkStep::LinkStages),
            SinkStep::LinkStages => Some(SinkStep::SyncStages),
            SinkStep::SyncStages => Some(SinkStep::FindInput),
            SinkStep::FindInput => Some(SinkStep::LinkInput),
            SinkStep::LinkInput => None,
        }
    }

    /// The name of the element that the step creates, if it creates one.
    pub fn element(self) -> (name: Option<&'static str>)
        ensures
            name is Some <==> self.factory() is Some,
            name matches Some(text) ==> self.factory() == Some(text@),
    {
        match self {
            SinkStep::CreateQueue => Some("queue"),
            SinkStep::CreateSink => Some("appsink"),
            _ => None,
        }
    }

    /// The error to report when the step has failed with the engine's words `detail`.
    pub fn fail(self, detail: &str) -> (error: AudioDecoderError)
        ensures
            error@ == self.failure(detail@),
    {
        match self.element() {
            Some(factory) => creation_failure(factory),
            None => match self {
                SinkStep::FindInput => AudioDecoderError::backend("Could not get static pad sink"),
                SinkStep::LinkInput => AudioDecoderError::backend_with(
                    "Sink pad link failed: ",
                    detail,
                ),
                _ => AudioDecoderError::backend(detail),
            },
        }
    }
}

} // verus!
