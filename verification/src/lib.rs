//! Playback session engine of a terminal playlist player: the shared control
//! flags of one playback attempt, the decisions of the decode-and-feed loop,
//! the playlist with its navigation, the queue file's text layout and the
//! session state machine, each with a contract that Verus proves.

pub mod attempt;
pub mod error;
pub mod names;
pub mod playlist;
pub mod queue;
pub mod session;
pub mod symphonia_control;
pub mod symphonia_play;
pub mod track;
