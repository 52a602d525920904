//! Format discovery: from what the engine reports of a new source pad to the
//! channel layout of the session.

use crate::error::{AudioDecoderError, ErrorKind};
use vstd::prelude::*;
use vstd::string::*;

verus! {

/// The role of one channel in a layout (front left, front right, ...), as the
/// tag by which the media engine names it.
#[derive(Debug, Clone, Copy, PartialEq, Eq, Structural)]
pub struct ChannelPosition {
    pub tag: i32,
}

/// What the engine knows of the audio on a pad.
#[derive(Debug, PartialEq, Eq)]
pub struct AudioInfoReport {
    /// Number of interleaved channels.
    pub channels: u32,
    /// Samples per second of the source.
    pub rate: u32,
    /// The position of each channel, in stream order; `None` where the audio
    /// on the pad comes without positions.
    pub positions: Option<Vec<ChannelPosition>>,
    /// The positions that the engine gives to this number of channels where
    /// the audio comes without its own; `None` where the engine has no such
    /// layout for this number of channels.
    pub default_positions: Option<Vec<ChannelPosition>>,
}

/// The mathematical value of an [`AudioInfoReport`].
pub struct AudioInfoView {
    pub channels: u32,
    pub rate: u32,
    pub positions: Option<Seq<ChannelPosition>>,
    pub default_positions: Option<Seq<ChannelPosition>>,
}

impl AudioInfoView {
    /// The layout that the audio is decoded to: its own positions, or the
    /// engine's default for its number of channels where it has none.
    pub open spec fn layout(self) -> Option<Seq<ChannelPosition>> {
        match self.positions {
            Some(positions) => Some(positions),
            None => self.default_positions,
        }
    }
}

impl View for AudioInfoReport {
    type V = AudioInfoView;

    open spec fn view(&self) -> AudioInfoView {
        AudioInfoView {
            channels: self.channels,
            rate: self.rate,
            positions: match self.positions {
                Some(positions) => Some(positions@),
                None => None,
            },
            default_positions: match self.default_positions {
                Some(positions) => Some(positions@),
                None => None,
            },
        }
    }
}

/// What the engine reports when the source grows a pad.
#[derive(Debug, PartialEq, Eq)]
pub struct SourcePadReport {
    /// Whether the pipeline that owns the pad still exists.
    pub pipeline_alive: bool,
    /// The media type of the pad's stream, such as `audio/x-raw`; `None` where
    /// the pad has no negotiated format.
    pub media_type: Option<String>,
    /// The audio description of the pad's stream; `None` where the engine
    /// cannot read one from the pad's format.
    pub audio_info: Option<AudioInfoReport>,
}

/// The mathematical value of a [`SourcePadReport`].
pub struct SourcePadView {
    pub pipeline_alive: bool,
    pub media_type: Option<Seq<char>>,
    pub audio_info: Option<AudioInfoView>,
}

impl View for SourcePadReport {
    type V = SourcePadView;

    open spec fn view(&self) -> SourcePadView {
        SourcePadView {
            pipeline_alive: self.pipeline_alive,
            media_type: match self.media_type {
                Some(name) => Some(name@),
                None => None,
            },
            audio_info: match self.audio_info {
                Some(info) => Some(info@),
                None => None,
            },
        }
    }
}

/// The mathematical value of an [`AudioFormatInfo`].
pub struct FormatModel {
    pub channel_count: u32,
    pub sample_rate: u32,
    pub channel_positions: Seq<ChannelPosition>,
}

impl FormatModel {
    /// A layout names the position of every channel.
    pub open spec fn wf(self) -> bool {
        self.channel_positions.len() == self.channel_count
    }

    /// The same layout at another sample rate.
    pub open spec fn at_rate(self, rate: u32) -> FormatModel {
        FormatModel { sample_rate: rate, ..self }
    }

    /// Whether `channel` is the index under which blocks at `position` are
    /// delivered: the first place of the layout that holds the position.
    pub open spec fn is_channel_of(self, position: ChannelPosition, channel: int) -> bool {
        &&& 0 <= channel < self.channel_positions.len()
        &&& self.channel_positions[channel] == position
        &&& forall|j: int| 0 <= j < channel ==> self.channel_positions[j] != position
    }

    /// The index under which blocks at `position` are delivered, if the layout
    /// holds the position.
    pub open spec fn channel_of(self, position: ChannelPosition) -> Option<int> {
        self.channel_positions.index_of_first(position)
    }
}

/// Whether `text` begins with `prefix`.
pub open spec fn has_prefix(text: Seq<char>, prefix: Seq<char>) -> bool {
    prefix.len() <= text.len() && text.subrange(0, prefix.len() as int) == prefix
}

/// Whether a media type names audio.
pub open spec fn is_audio_media_type(name: Seq<char>) -> bool {
    has_prefix(name, "audio/"@)
}

/// What becomes of a source pad report: the format of the session, or the
/// failure to report.
pub open spec fn probe_outcome(report: SourcePadView) -> Result<FormatModel, ErrorKind> {
    if !report.pipeline_alive {
        Err(ErrorKind::Backend("Pipeline failed upgrade"@))
    } else {
        match report.media_type {
            None => Err(ErrorKind::Backend("Failed to get media type from pad"@)),
            Some(name) => if !is_audio_media_type(name) {
                Err(ErrorKind::InvalidMediaFormat)
            } else {
                match report.audio_info {
                    None => Err(ErrorKind::Backend("AudioInfo failed"@)),
                    Some(info) => match info.layout() {
                        None => Err(ErrorKind::Backend("AudioInfo failed"@)),
                        Some(positions) => if positions.len() == info.channels {
                            Ok(
                                FormatModel {
                                    channel_count: info.channels,
                                    sample_rate: info.rate,
                                    channel_positions: positions,
                                },
                            )
                        } else {
                            Err(ErrorKind::Backend("AudioInfo failed"@))
                        },
                    },
                }
            },
        }
    }
}

/// The format of a session: discovered once, never changed afterwards.
#[derive(Debug, PartialEq, Eq)]
pub struct AudioFormatInfo {
    channel_count: u32,
    sample_rate: u32,
    channel_positions: Vec<ChannelPosition>,
}

impl View for AudioFormatInfo {
    type V = FormatModel;

    closed spec fn view(&self) -> FormatModel {
        FormatModel {
            channel_count: self.channel_count,
            sample_rate: self.sample_rate,
            channel_positions: self.channel_positions@,
        }
    }
}

/// The view of the result of a probe.
pub open spec fn probe_view(outcome: Result<AudioFormatInfo, AudioDecoderError>) -> Result<
    FormatModel,
    ErrorKind,
> {
    match outcome {
        Ok(format) => Ok(format@),
        Err(error) => Err(error@),
    }
}

impl AudioFormatInfo {
    #[verifier::type_invariant]
    spec fn every_channel_has_a_position(self) -> bool {
        self.channel_positions.len() == self.channel_count
    }

    /// Number of channels of the source.
    pub fn channel_count(&self) -> (count: u32)
        ensures
            count == self@.channel_count,
            self@.wf(),
    {
        proof {
            use_type_invariant(self);
        }
        self.channel_count
    }

    /// Samples per second of the source.
    pub fn sample_rate(&self) -> (rate: u32)
        ensures
            rate == self@.sample_rate,
    {
        self.sample_rate
    }

    /// The position of each channel; the place in this list is the channel's index.
    pub fn channel_positions(&self) -> (positions: &Vec<ChannelPosition>)
        ensures
            positions@ == self@.channel_positions,
            self@.wf(),
    {
        proof {
            use_type_invariant(self);
        }
        &self.channel_positions
    }

    /// The same layout at another sample rate.
    pub fn at_rate(&self, rate: u32) -> (format: AudioFormatInfo)
        ensures
            format@ == self@.at_rate(rate),
    {
        proof {
            use_type_invariant(self);
        }
        let mut positions: Vec<ChannelPosition> = Vec::new();
        let mut i: usize = 0;
        while i < self.channel_positions.len()
            invariant
                i <= self.channel_positions.len(),
                positions.len() == i,
                forall|k: int| 0 <= k < i ==> positions[k] == self.channel_positions[k],
            decreases self.channel_positions.len() - i,
        {
            positions.push(self.channel_positions[i]);
            i = i + 1;
        }
        assert(positions@ =~= self.channel_positions@);
        AudioFormatInfo {
            channel_count: self.channel_count,
            sample_rate: rate,
            channel_positions: positions,
        }
    }

    /// The position that the channel index `channel` stands for.
    pub fn position_of(&self, channel: u32) -> (position: Option<ChannelPosition>)
        ensures
            channel < self@.channel_count ==> position == Some(
                self@.channel_positions[channel as int],
            ),
            channel >= self@.channel_count ==> position is None,
    {
        proof {
            use_type_invariant(self);
        }
        if (channel as usize) < self.channel_positions.len() {
            Some(self.channel_positions[channel as usize])
        } else {
            None
        }
    }

    /// The channel index under which blocks at `position` are delivered: the
    /// first place of the layout that holds the position.
    pub fn channel_of(&self, position: ChannelPosition) -> (channel: Option<u32>)
        ensures
            match channel {
                Some(index) => self@.channel_of(position) == Some(index as int)
                    && self@.is_channel_of(position, index as int) && index < self@.channel_count,
                None => self@.channel_of(position) is None
                    && !self@.channel_positions.contains(position),
            },
    {
        proof {
            use_type_invariant(self);
        }
        let mut index: u32 = 0;
        while index < self.channel_count
            invariant
                index <= self.channel_count,
                self.channel_positions.len() == self.channel_count,
                forall|j: int| 0 <= j < index ==> self.channel_positions[j] != position,
            decreases self.channel_count - index,
        {
            if self.channel_positions[index as usize] == position {
                proof {
                    let layout = self@.channel_positions;
                    assert(layout[index as int] == position);
                    assert(layout.contains(position));
                    layout.index_of_first_ensures(position);
                }
                return Some(index);
            }
            index = index + 1;
        }
        proof {
            self@.channel_positions.index_of_first_ensures(position);
        }
        None
    }
}

/// Decides whether `text` begins with `prefix`.
pub fn starts_with(text: &str, prefix: &str) -> (b: bool)
    ensures
        b == has_prefix(text@, prefix@),
{
    let wanted: usize = prefix.unicode_len();
    if text.unicode_len() < wanted {
        return false;
    }
    let mut i: usize = 0;
    while i < wanted
        invariant
            i <= wanted,
            wanted == prefix@.len(),
            wanted <= text@.len(),
            forall|j: int| 0 <= j < i ==> text@[j] == prefix@[j],
        decreases wanted - i,
    {
        if text.get_char(i) != prefix.get_char(i) {
            assert(text@.subrange(0, wanted as int)[i as int] != prefix@[i as int]);
            return false;
        }
        i = i + 1;
    }
    assert(text@.subrange(0, wanted as int) =~= prefix@);
    true
}

/// Reads the format of a session from a source pad report.
///
/// A pad whose pipeline is gone, or that has no media type, fails with an
/// engine error; a pad that carries something other than audio fails with
/// `InvalidMediaFormat`; audio that the engine cannot describe fails with an
/// engine error. The layout is that of the audio or, where the audio comes
/// without positions, the engine's default for its number of channels; audio
/// for which neither is known, or whose layout does not name every channel,
/// fails with an engine error. Everything else yields the format: channel
/// count, sample rate and the position of each channel.
pub fn probe(report: SourcePadReport) -> (outcome: Result<AudioFormatInfo, AudioDecoderError>)
    ensures
        probe_view(outcome) == probe_outcome(report@),
        outcome matches Ok(format) ==> format@.wf(),
{
    if !report.pipeline_alive {
        return Err(AudioDecoderError::backend("Pipeline failed upgrade"));
    }
    let name = match report.media_type {
        Some(name) => name,
        None => {
            return Err(AudioDecoderError::backend("Failed to get media type from pad"));
        },
    };
    if !starts_with(name.as_str(), "audio/") {
        return Err(AudioDecoderError::InvalidMediaFormat);
    }
    let info = match report.audio_info {
        Some(info) => info,
        None => {
            return Err(AudioDecoderError::backend("AudioInfo failed"));
        },
    };
    let layout = match info.positions {
        Some(positions) => Some(positions),
        None => info.default_positions,
    };
    let positions = match layout {
        Some(positions) => positions,
        None => {
            return Err(AudioDecoderError::backend("AudioInfo failed"));
        },
    };
    if positions.len() != info.channels as usize {
        return Err(AudioDecoderError::backend("AudioInfo failed"));
    }
    Ok(
        AudioFormatInfo {
            channel_count: info.channels,
            sample_rate: info.rate,
            channel_positions: positions,
        },
    )
}

} // verus!
