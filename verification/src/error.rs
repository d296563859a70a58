//! What can go wrong while a directory is listed or a track is played.

use vstd::prelude::*;

verus! {

/// The failures the engine distinguishes.
#[derive(Clone, Copy, Debug, PartialEq, Eq, Structural)]
pub enum PlayerError {
    /// A directory or a file could not be read.
    Io,
    /// The container or the codec is unknown or unsupported.
    Format,
    /// No output device is available.
    Device,
    /// One unit of the stream failed to decode.
    DecodeUnit,
}

impl PlayerError {
    /// Whether the failure ends the playback attempt. A unit that fails to
    /// decode does not: it is dropped and decoding goes on.
    pub open spec fn is_fatal(self) -> bool {
        !(self is DecodeUnit)
    }

    pub fn aborts_attempt(self) -> (fatal: bool)
        ensures
            fatal == self.is_fatal(),
    {
        match self {
            PlayerError::DecodeUnit => false,
            _ => true,
        }
    }

    /// A short text for the failure, for a status line.
    pub fn describe(self) -> (text: String)
        ensures
            text@ == match self {
                PlayerError::Io => "cannot read from disk"@,
                PlayerError::Format => "unsupported audio format"@,
                PlayerError::Device => "no audio output device"@,
                PlayerError::DecodeUnit => "corrupt audio unit skipped"@,
            },
    {
        match self {
            PlayerError::Io => "cannot read from disk".to_owned(),
            PlayerError::Format => "unsupported audio format".to_owned(),
            PlayerError::Device => "no audio output device".to_owned(),
            PlayerError::DecodeUnit => "corrupt audio unit skipped".to_owned(),
        }
    }
}

} // verus!
