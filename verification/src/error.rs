//! The ways in which a playback call fails.

use vstd::prelude::*;

verus! {

/// Why a playback call ended without playing its audio to the end.
///
/// Every failure ends the call it occurs in: nothing is retried and no
/// failure is passed over in silence.
#[derive(Clone, Copy, Debug, PartialEq, Eq, Structural)]
pub enum PlaybackError {
    /// No output device carries the requested name.
    InvalidDevice,
    /// The host audio subsystem could not list its output devices.
    EnumerationFailed,
    /// The device exists, but no stream or sink could be opened on it.
    StreamUnavailable,
    /// The supplied bytes are not audio in any recognised format.
    DecodeFailed,
    /// The output stream broke while the audio was playing.
    Interrupted,
}

impl PlaybackError {
    /// The text that the caller is shown for each failure.
    pub open spec fn message_text(self) -> Seq<char> {
        match self {
            PlaybackError::InvalidDevice => "Invalid device"@,
            PlaybackError::EnumerationFailed => "Output devices unavailable"@,
            PlaybackError::StreamUnavailable => "Output stream unavailable"@,
            PlaybackError::DecodeFailed => "Unrecognized audio data"@,
            PlaybackError::Interrupted => "Playback interrupted"@,
        }
    }

    /// Renders the failure as the message handed back to the caller.
    pub fn message(&self) -> (text: String)
        ensures
            text@ == self.message_text(),
    {
        match self {
            PlaybackError::InvalidDevice => "Invalid device".to_owned(),
            PlaybackError::EnumerationFailed => "Output devices unavailable".to_owned(),
            PlaybackError::StreamUnavailable => "Output stream unavailable".to_owned(),
            PlaybackError::DecodeFailed => "Unrecognized audio data".to_owned(),
            PlaybackError::Interrupted => "Playback interrupted".to_owned(),
        }
    }
}

} // verus!
