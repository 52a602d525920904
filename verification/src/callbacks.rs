//! The callback surface: the four events through which a session reports.

use crate::error::{AudioDecoderError, ErrorKind};
use vstd::prelude::*;

verus! {

/// One call on the caller's handlers.
#[derive(Debug, PartialEq, Eq)]
pub enum Callback {
    /// The format is known; the source has this many channels.
    Ready(u32),
    /// One block of samples for the channel with this index.
    Progress(u32),
    /// The session failed.
    Error(AudioDecoderError),
    /// The source ended.
    Eos,
}

/// The mathematical value of a [`Callback`].
pub enum CallbackView {
    Ready(u32),
    Progress(u32),
    Error(ErrorKind),
    Eos,
}

impl CallbackView {
    /// `eos` and `error` end a session; `ready` and `progress` do not.
    pub open spec fn is_terminal(self) -> bool {
        self is Error || self is Eos
    }
}

impl View for Callback {
    type V = CallbackView;

    open spec fn view(&self) -> CallbackView {
        match self {
            Callback::Ready(channels) => CallbackView::Ready(*channels),
            Callback::Progress(channel) => CallbackView::Progress(*channel),
            Callback::Error(error) => CallbackView::Error(error@),
            Callback::Eos => CallbackView::Eos,
        }
    }
}

impl Callback {
    /// Whether this call ends the session. The caller's blocking wait is
    /// released exactly when such a call has been made.
    pub fn is_terminal(&self) -> (b: bool)
        ensures
            b == self@.is_terminal(),
    {
        match self {
            Callback::Error(_) => true,
            Callback::Eos => true,
            _ => false,
        }
    }
}

/// The view of a callback that may be absent.
pub open spec fn callback_view(callback: Option<Callback>) -> Option<CallbackView> {
    match callback {
        Some(c) => Some(c@),
        None => None,
    }
}

} // verus!
