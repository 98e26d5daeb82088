//! What can end a relay run before it is asked to stop.

use vstd::prelude::*;

verus! {

/// The reason a run failed.
#[derive(Clone, Copy, Debug, PartialEq, Eq, Structural)]
pub enum RelayError {
    /// The session has no video sub-stream.
    NoVideoStream,
    /// The session could not be established.
    NegotiationFailed,
    /// Delivery of the video sub-stream could not be set up.
    SetupFailed,
    /// Playback could not be started.
    PlaybackStartFailed,
    /// The session layer has no more frames.
    StreamEnded,
    /// The session layer failed while frames were coming in.
    StreamFailed,
}

/// The class of a failure.
#[derive(Clone, Copy, Debug, PartialEq, Eq, Structural)]
pub enum ErrorClass {
    /// The session cannot be relayed as it is.
    Configuration,
    /// The session layer failed.
    Transport,
    /// The stream came to its end.
    StreamEnded,
}

impl RelayError {
    /// The class that a failure belongs to.
    pub open spec fn spec_class(self) -> ErrorClass {
        match self {
            RelayError::NoVideoStream => ErrorClass::Configuration,
            RelayError::NegotiationFailed => ErrorClass::Transport,
            RelayError::SetupFailed => ErrorClass::Transport,
            RelayError::PlaybackStartFailed => ErrorClass::Transport,
            RelayError::StreamEnded => ErrorClass::StreamEnded,
            RelayError::StreamFailed => ErrorClass::Transport,
        }
    }

    /// The text that names a failure.
    pub open spec fn spec_message(self) -> Seq<char> {
        match self {
            RelayError::NoVideoStream => "couldn't find video stream"@,
            RelayError::NegotiationFailed => "session negotiation failed"@,
            RelayError::SetupFailed => "stream setup failed"@,
            RelayError::PlaybackStartFailed => "playback start failed"@,
            RelayError::StreamEnded => "EOF"@,
            RelayError::StreamFailed => "stream failed"@,
        }
    }

    /// The class that the failure belongs to.
    pub fn class(&self) -> (r: ErrorClass)
        ensures
            r == self.spec_class(),
    {
        match self {
            RelayError::NoVideoStream => ErrorClass::Configuration,
            RelayError::NegotiationFailed => ErrorClass::Transport,
            RelayError::SetupFailed => ErrorClass::Transport,
            RelayError::PlaybackStartFailed => ErrorClass::Transport,
            RelayError::StreamEnded => ErrorClass::StreamEnded,
            RelayError::StreamFailed => ErrorClass::Transport,
        }
    }

    /// The text that names the failure.
    pub fn message(&self) -> (r: String)
        ensures
            r@ == self.spec_message(),
    {
        match self {
            RelayError::NoVideoStream => "couldn't find video stream".to_owned(),
            RelayError::NegotiationFailed => "session negotiation failed".to_owned(),
            RelayError::SetupFailed => "stream setup failed".to_owned(),
            RelayError::PlaybackStartFailed => "playback start failed".to_owned(),
            RelayError::StreamEnded => "EOF".to_owned(),
            RelayError::StreamFailed => "stream failed".to_owned(),
        }
    }
}

} // verus!
