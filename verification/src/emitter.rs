//! The per-channel emitter's judgement of one pull: failure, silent trim, or
//! delivery under stable channel indices.

use crate::clock::{is_before_start, offset_nanos, precedes_start};
use crate::error::{AudioDecoderError, ErrorKind};
use crate::format::{AudioFormatInfo, ChannelPosition, FormatModel};
use vstd::prelude::*;

verus! {

/// What the engine handed over on one pull, as far as the emitter reads it.
#[derive(Debug, PartialEq, Eq)]
pub struct SampleReport {
    /// Whether the sample carries a block of samples.
    pub has_block: bool,
    /// The block's time stamp in nanoseconds, if it has one.
    pub pts: Option<u64>,
    /// Whether the sample's format could be read as audio.
    pub has_format: bool,
    /// The positions of the channels in the block; `None` where the sample's
    /// format has none.
    pub positions: Option<Vec<ChannelPosition>>,
}

/// The mathematical value of a [`SampleReport`].
pub struct SampleView {
    pub has_block: bool,
    pub pts: Option<u64>,
    pub has_format: bool,
    pub positions: Option<Seq<ChannelPosition>>,
}

impl View for SampleReport {
    type V = SampleView;

    open spec fn view(&self) -> SampleView {
        SampleView {
            has_block: self.has_block,
            pts: self.pts,
            has_format: self.has_format,
            positions: match self.positions {
                Some(positions) => Some(positions@),
                None => None,
            },
        }
    }
}

/// The view of a pull: `None` stands for a pull that yielded no sample.
pub open spec fn pull_view(pull: Option<SampleReport>) -> Option<SampleView> {
    match pull {
        Some(sample) => Some(sample@),
        None => None,
    }
}

/// The view of a format that may not be known yet.
pub open spec fn format_view(format: Option<&AudioFormatInfo>) -> Option<FormatModel> {
    match format {
        Some(format) => Some(format@),
        None => None,
    }
}

/// What the emitter hands back to the engine after a pull.
#[derive(Debug, Clone, Copy, PartialEq, Eq, Structural)]
pub enum Flow {
    /// Keep the data coming.
    Continue,
    /// This emitter failed.
    Error,
}

/// The emitter's judgement of one pull.
#[derive(Debug, PartialEq, Eq)]
pub enum Verdict {
    /// The pull yielded no sample, or one that cannot be used; the session
    /// fails with this error.
    Failed(AudioDecoderError),
    /// The block lies before the start offset and is dropped without a word.
    Trimmed,
    /// The block is delivered, once for each of its positions, under these
    /// channel indices.
    Deliver(Vec<u32>),
}

/// The mathematical value of a [`Verdict`].
pub enum VerdictView {
    Failed(ErrorKind),
    Trimmed,
    Deliver(Seq<u32>),
}

impl View for Verdict {
    type V = VerdictView;

    open spec fn view(&self) -> VerdictView {
        match self {
            Verdict::Failed(error) => VerdictView::Failed(error@),
            Verdict::Trimmed => VerdictView::Trimmed,
            Verdict::Deliver(channels) => VerdictView::Deliver(channels@),
        }
    }
}

impl VerdictView {
    /// What the engine is told: a failure stops the emitter, everything else
    /// keeps the data coming.
    pub open spec fn flow(self) -> Flow {
        match self {
            VerdictView::Failed(_) => Flow::Error,
            VerdictView::Trimmed => Flow::Continue,
            VerdictView::Deliver(_) => Flow::Continue,
        }
    }

    /// The channel indices under which the block is delivered, one delivery
    /// each; empty for every verdict but a delivery.
    pub open spec fn deliveries(self) -> Seq<u32> {
        match self {
            VerdictView::Deliver(channels) => channels,
            _ => Seq::empty(),
        }
    }
}

impl Verdict {
    /// What the engine is told after this verdict.
    pub fn flow(&self) -> (flow: Flow)
        ensures
            flow == self@.flow(),
    {
        match self {
            Verdict::Failed(_) => Flow::Error,
            Verdict::Trimmed => Flow::Continue,
            Verdict::Deliver(_) => Flow::Continue,
        }
    }
}

/// Whether the layout of `format` holds every one of `positions`.
pub open spec fn resolves(format: FormatModel, positions: Seq<ChannelPosition>) -> bool {
    forall|i: int|
        0 <= i < positions.len() ==> format.channel_positions.contains(#[trigger] positions[i])
}

/// The channel index of each of `positions` in the layout of `format`.
pub open spec fn channels_of(format: FormatModel, positions: Seq<ChannelPosition>) -> Seq<u32> {
    Seq::new(positions.len(), |i: int| format.channel_of(positions[i]).unwrap() as u32)
}

/// The judgement of one pull, given the format of the session and its start
/// offset in milliseconds.
///
/// The checks come in a fixed order: a pull that yielded no sample is a
/// failure, reported as an invalid sample; so is a sample without a block; a
/// sample without a readable format, or without positions, is an engine
/// failure; a block before the start offset is trimmed; a block at a position
/// that the session's layout does not hold is an engine failure; any other
/// block is delivered under the index of each of its positions. No pull
/// passes without a verdict, and none but a trimmed or delivered block keeps
/// the data coming.
pub open spec fn verdict_of(
    format: Option<FormatModel>,
    start_millis: Option<u64>,
    pull: Option<SampleView>,
) -> VerdictView {
    match pull {
        None => VerdictView::Failed(ErrorKind::InvalidSample),
        Some(sample) => if !sample.has_block {
            VerdictView::Failed(ErrorKind::InvalidSample)
        } else if !sample.has_format {
            VerdictView::Failed(ErrorKind::Backend("Could not get caps from sample"@))
        } else {
            match sample.positions {
                None => VerdictView::Failed(ErrorKind::Backend("AudioInfo failed"@)),
                Some(positions) => if precedes_start(sample.pts, start_millis) {
                    VerdictView::Trimmed
                } else {
                    match format {
                        Some(format) if resolves(format, positions) => VerdictView::Deliver(
                            channels_of(format, positions),
                        ),
                        _ => VerdictView::Failed(ErrorKind::Backend("Unknown channel position"@)),
                    }
                },
            }
        },
    }
}

/// Judges one pull.
///
/// Beyond the exact verdict, the contract spells out what callers rely on:
/// every delivered index lies below the channel count and stands for the
/// position that the block carried; nothing stamped earlier than the start
/// offset is delivered; and a usable block before the start offset is trimmed,
/// never failed.
pub fn judge(
    format: Option<&AudioFormatInfo>,
    start_millis: Option<u64>,
    pull: Option<SampleReport>,
) -> (verdict: Verdict)
    ensures
        verdict@ == verdict_of(format_view(format), start_millis, pull_view(pull)),
        verdict matches Verdict::Deliver(channels) ==> {
            &&& format is Some
            &&& pull is Some
            &&& pull.unwrap().positions is Some
            &&& channels.len() == pull.unwrap().positions.unwrap().len()
            &&& forall|i: int|
                0 <= i < channels.len() ==> {
                    &&& (#[trigger] channels[i]) < format.unwrap()@.channel_count
                    &&& format.unwrap()@.is_channel_of(
                        pull.unwrap().positions.unwrap()[i],
                        channels[i] as int,
                    )
                }
            &&& !precedes_start(pull.unwrap().pts, start_millis)
        },
{
    let sample = match pull {
        Some(sample) => sample,
        None => {
            return Verdict::Failed(AudioDecoderError::InvalidSample);
        },
    };
    if !sample.has_block {
        return Verdict::Failed(AudioDecoderError::InvalidSample);
    }
    if !sample.has_format {
        return Verdict::Failed(AudioDecoderError::backend("Could not get caps from sample"));
    }
    let positions = match sample.positions {
        Some(positions) => positions,
        None => {
            return Verdict::Failed(AudioDecoderError::backend("AudioInfo failed"));
        },
    };
    if is_before_start(sample.pts, start_millis) {
        return Verdict::Trimmed;
    }
    let format = match format {
        Some(format) => format,
        None => {
            return Verdict::Failed(AudioDecoderError::backend("Unknown channel position"));
        },
    };
    match resolve(format, &positions) {
        Some(channels) => Verdict::Deliver(channels),
        None => Verdict::Failed(AudioDecoderError::backend("Unknown channel position")),
    }
}

/// Looks up the channel index of each of `positions` in the layout of
/// `format`; `None` where the layout lacks one of them.
pub fn resolve(format: &AudioFormatInfo, positions: &Vec<ChannelPosition>) -> (channels: Option<
    Vec<u32>,
>)
    ensures
        channels is Some <==> resolves(format@, positions@),
        channels matches Some(found) ==> {
            &&& found@ == channels_of(format@, positions@)
            &&& forall|i: int|
                0 <= i < found.len() ==> {
                    &&& (#[trigger] found[i]) < format@.channel_count
                    &&& format@.is_channel_of(positions[i], found[i] as int)
                }
        },
{
    let mut channels: Vec<u32> = Vec::new();
    let mut i: usize = 0;
    while i < positions.len()
        invariant
            i <= positions.len(),
            channels.len() == i,
            forall|k: int|
                0 <= k < i ==> {
                    &&& format@.channel_positions.contains(#[trigger] positions[k])
                    &&& format@.channel_of(positions[k]) == Some(channels[k] as int)
                    &&& format@.is_channel_of(positions[k], channels[k] as int)
                    &&& channels[k] < format@.channel_count
                },
        decreases positions.len() - i,
    {
        match format.channel_of(positions[i]) {
            Some(channel) => {
                proof {
                    assert(format@.channel_positions[channel as int] == positions[i as int]);
                }
                channels.push(channel);
            },
            None => {
                proof {
                    assert(!format@.channel_positions.contains(positions@[i as int]));
                }
                return None;
            },
        }
        i = i + 1;
    }
    assert(channels@ =~= channels_of(format@, positions@));
    Some(channels)
}

/// Start-offset trimming: with a start offset of `start` milliseconds,
/// nothing is delivered of a block that is stamped earlier than the offset, or
/// not stamped at all; and a usable block that is stamped earlier is trimmed
/// and the data keeps coming: it is no failure.
pub proof fn lemma_trimming(format: Option<FormatModel>, start: u64, sample: SampleView)
    ensures
        ({
            let verdict = verdict_of(format, Some(start), Some(sample));
            &&& verdict is Deliver ==> sample.pts is Some && sample.pts.unwrap() >= offset_nanos(
                start,
            )
            &&& sample.pts is Some && sample.pts.unwrap() < offset_nanos(start)
                ==> verdict.deliveries().len() == 0
            &&& sample.has_block && sample.has_format && sample.positions is Some && sample.pts
                is Some && sample.pts.unwrap() < offset_nanos(start) ==> verdict is Trimmed
                && verdict.flow() == Flow::Continue
        }),
{
}

} // verus!
