//! The failures a decode session can report.

use vstd::prelude::*;
use vstd::string::*;

verus! {

/// Why a decode session failed. Every failure ends the session.
#[derive(Debug, PartialEq, Eq)]
pub enum AudioDecoderError {
    /// The media engine refused an operation; the text says which one or why.
    Backend(String),
    /// The memory of a decoded block could not be read.
    BufferReadFailed,
    /// The source holds no audio.
    InvalidMediaFormat,
    /// A pull yielded no sample, or a sample that carries no block.
    InvalidSample,
    /// The engine refused a change of the pipeline's run state.
    StateChangeFailed,
}

/// The mathematical value of an [`AudioDecoderError`]: the same taxonomy, with
/// the engine's text as a sequence of characters.
pub enum ErrorKind {
    Backend(Seq<char>),
    BufferReadFailed,
    InvalidMediaFormat,
    InvalidSample,
    StateChangeFailed,
}

impl View for AudioDecoderError {
    type V = ErrorKind;

    open spec fn view(&self) -> ErrorKind {
        match self {
            AudioDecoderError::Backend(detail) => ErrorKind::Backend(detail@),
            AudioDecoderError::BufferReadFailed => ErrorKind::BufferReadFailed,
            AudioDecoderError::InvalidMediaFormat => ErrorKind::InvalidMediaFormat,
            AudioDecoderError::InvalidSample => ErrorKind::InvalidSample,
            AudioDecoderError::StateChangeFailed => ErrorKind::StateChangeFailed,
        }
    }
}

impl AudioDecoderError {
    /// An engine failure described by a fixed text.
    pub fn backend(detail: &str) -> (error: AudioDecoderError)
        ensures
            error@ == ErrorKind::Backend(detail@),
    {
        AudioDecoderError::Backend(detail.to_owned())
    }

    /// An engine failure described by a fixed text followed by the engine's own words.
    pub fn backend_with(prefix: &str, detail: &str) -> (error: AudioDecoderError)
        ensures
            error@ == ErrorKind::Backend(prefix@ + detail@),
    {
        AudioDecoderError::Backend(prefix.to_owned().concat(detail))
    }
}

} // verus!
