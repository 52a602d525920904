//! The decision core of a streaming audio decoder.
//!
//! A decode session turns a compressed source into per-channel blocks of raw
//! samples and reports them through four callbacks: `ready`, `progress`,
//! `error` and `eos`. The media engine does the decoding; everything that has
//! to be decided around it lives here, as state machines over plain values:
//! which callback may fire and when, how a discovered format becomes a channel
//! layout, which blocks precede the start offset, when an emitter must wait for
//! credit, and how the pipeline moves from idle to stopped.

pub mod backpressure;
pub mod bus;
pub mod callbacks;
pub mod clock;
pub mod decoder;
pub mod emitter;
pub mod error;
pub mod format;
pub mod laws;
pub mod session;
pub mod wiring;

pub use backpressure::{Admission, CreditWindow, CREDIT_THRESHOLD};
pub use bus::BusMessage;
pub use callbacks::Callback;
pub use decoder::GStreamerAudioDecoder;
pub use emitter::{Flow, SampleReport, Verdict};
pub use error::AudioDecoderError;
pub use format::{AudioFormatInfo, AudioInfoReport, ChannelPosition, SourcePadReport};
pub use session::{
    ChannelReaction, DecodeSession, Directive, Phase, SampleReaction, SourceReaction, WireDecision,
};
pub use wiring::{NormalizeStep, SetupStep, SinkStep};
