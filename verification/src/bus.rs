//! Messages from the pipeline's bus, as far as a session reads them.

use crate::error::{AudioDecoderError, ErrorKind};
use vstd::prelude::*;

verus! {

/// One message from the bus.
#[derive(Debug, PartialEq, Eq)]
pub enum BusMessage {
    /// Some element failed; `debug` is the engine's account of it, if it gave one.
    Error { debug: Option<String> },
    /// Every sink has seen the end of the stream.
    Eos,
    /// Anything else.
    Other,
}

/// The mathematical value of a [`BusMessage`].
pub enum BusView {
    Error { debug: Option<Seq<char>> },
    Eos,
    Other,
}

impl View for BusMessage {
    type V = BusView;

    open spec fn view(&self) -> BusView {
        match self {
            BusMessage::Error { debug } => BusView::Error {
                debug: match debug {
                    Some(text) => Some(text@),
                    None => None,
                },
            },
            BusMessage::Eos => BusView::Eos,
            BusMessage::Other => BusView::Other,
        }
    }
}

/// The error that a failure on the bus stands for: the engine's account, or
/// `Unknown` where it gave none.
pub open spec fn bus_failure(debug: Option<Seq<char>>) -> ErrorKind {
    match debug {
        Some(text) => ErrorKind::Backend(text),
        None => ErrorKind::Backend("Unknown"@),
    }
}

/// The error to report for a failure on the bus.
pub fn bus_error(debug: Option<String>) -> (error: AudioDecoderError)
    ensures
        error@ == bus_failure(
            match debug {
                Some(text) => Some(text@),
                None => None,
            },
        ),
{
    match debug {
        Some(text) => AudioDecoderError::Backend(text),
        None => AudioDecoderError::backend("Unknown"),
    }
}

} // verus!
