//! The decoder: where sessions and emitter windows come from.

use crate::backpressure::CreditWindow;
use crate::session::{DecodeSession, SessionModel};
use vstd::prelude::*;

verus! {

/// A decoder that runs each decode call as a session on a media pipeline.
#[derive(Debug, Clone, Copy, PartialEq, Eq)]
pub struct GStreamerAudioDecoder {}

impl GStreamerAudioDecoder {
    /// A decoder. It holds nothing: all state of a decode call lives in the
    /// call's session.
    pub fn new() -> (decoder: GStreamerAudioDecoder)
        ensures
            decoder == (GStreamerAudioDecoder {}),
    {
        GStreamerAudioDecoder {}
    }

    /// The state of one decode call, before anything has happened: the source
    /// starts at `start_millis`, if set, and is resampled to `target_rate`.
    pub fn session(&self, start_millis: Option<u64>, target_rate: u32) -> (session: DecodeSession)
        ensures
            session@ == SessionModel::init(start_millis, target_rate),
            session@.wf(),
    {
        DecodeSession::new(start_millis, target_rate)
    }

    /// The credit window for the emitter of one channel, nothing taken yet.
    pub fn window(&self) -> (window: CreditWindow)
        ensures
            window@ == 0,
    {
        CreditWindow::new()
    }
}

} // verus!
