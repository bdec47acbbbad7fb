//! Playback engine of a streaming-audio client, as a verified state machine.
//!
//! The worker that drives a decoder and an audio output device is modelled as
//! a machine that is told what happened (an [`Event`]) and answers with the
//! outside work that is owed next (an [`Action`]).  Everything that touches a
//! device, a stream or a clock is done by the caller; every decision is made
//! here and proved against the model in [`model`].

pub mod laws;
pub mod model;
pub mod protocol;
pub mod source;
pub mod state;
pub mod trace;
pub mod worker;

pub use model::{Core, Step};
pub use protocol::{
    Action, AudioKey, Event, FileId, LoadRequest, Phase, PlayerCommand, PlayerError, TrackId,
    HEADER_OFFSET,
};
pub use state::{PlaybackStatus, PlayerState};
pub use worker::Worker;
