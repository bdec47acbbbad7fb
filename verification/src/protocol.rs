//! What the worker is told and what it asks for.
//!
//! The worker never touches a queue, a stream, a decoder or a device.  It
//! names the outside work that is owed next as an [`Action`]; whoever runs it
//! performs that work and hands the outcome back as an [`Event`].

use vstd::prelude::*;

verus! {

/// Number of bytes of container header that precede the audio bitstream in
/// every deciphered file.
pub const HEADER_OFFSET: u64 = 0xa7;

/// Identifier of a track.
#[derive(Clone, Copy, Debug, PartialEq, Eq)]
pub struct TrackId(pub u128);

/// Identifier of one encoded file of a track.
#[derive(Clone, Copy, Debug, PartialEq, Eq)]
pub struct FileId(pub [u8; 20]);

/// Symmetric key that deciphers one file.
#[derive(Clone, Copy, Debug, PartialEq, Eq)]
pub struct AudioKey(pub [u8; 16]);

/// What a load was asked to do.
#[derive(Clone, Copy, Debug, PartialEq, Eq)]
pub struct LoadRequest {
    /// The track to play.
    pub track: TrackId,
    /// Whether playback starts as soon as the track is ready.
    pub autoplay: bool,
    /// Where in the track to start, in milliseconds.
    pub start_ms: u32,
}

/// A control intent; it is a value and is consumed once.
#[derive(Clone, Copy, Debug, PartialEq, Eq)]
pub enum PlayerCommand {
    /// Replace whatever is loaded by a new track.
    Load(LoadRequest),
    /// Resume a paused track.
    Play,
    /// Suspend a playing track.
    Pause,
    /// End playback and give up the decoder session.
    Stop,
    /// Move to a position, in milliseconds.
    Seek(u32),
}

/// Why the worker turned something down or gave something up.
#[derive(Clone, Copy, Debug, PartialEq, Eq)]
pub enum PlayerError {
    /// The command needs a decoder session and there is none.
    NotLoaded,
    /// The track could not be resolved to a file.
    MetadataUnresolved,
    /// The key of the file could not be had.
    KeyFetchFailed,
    /// The content stream could not be opened.
    StreamOpenFailed,
    /// The decoder refused the stream.
    DecoderConstructionFailed,
    /// The decoder failed with something other than a gap.
    DecoderFault,
    /// The output device failed with something other than an underflow.
    DeviceFault,
    /// The event does not answer the action that was owed.
    UnexpectedEvent,
}

/// Outside work that the worker asks for.  Each action is answered by
/// exactly one [`Event`].
#[derive(Clone, Copy, Debug, PartialEq, Eq)]
pub enum Action {
    /// Wait a bounded time for a command.
    WaitCommand,
    /// Look for a command without waiting.
    PollCommand,
    /// Start the output device.
    StartDevice,
    /// Stop the output device.
    StopDevice,
    /// Tear the decoder session down.
    DiscardDecoder,
    /// Resolve the track to its files, in order of preference.
    ResolveTrack(TrackId),
    /// Fetch the key of a file of a track.
    FetchKey(TrackId, FileId),
    /// Open the file, decipher it with the key, skip the header and build a
    /// decoder session on what follows.
    OpenDecoder {
        /// The file to open.
        file: FileId,
        /// The key that deciphers it.
        key: AudioKey,
        /// Bytes to skip before the bitstream.
        header_offset: u64,
    },
    /// Move the decoder to a position, in milliseconds.
    SeekDecoder(u32),
    /// Pull one packet from the decoder.
    PullPacket,
    /// Write the packet that was pulled last to the output device.
    WritePacket,
}

/// The outcome of an [`Action`].
#[derive(Debug, PartialEq, Eq)]
pub enum Event {
    /// No command was pending.
    NoCommand,
    /// A command was taken from the queue.
    Command(PlayerCommand),
    /// The device is running.
    DeviceStarted,
    /// The device has stopped.
    DeviceStopped,
    /// The device failed with something other than an underflow.
    DeviceFault,
    /// The decoder session is gone.
    DecoderDiscarded,
    /// The files of the track, in order of preference.
    TrackResolved(Vec<FileId>),
    /// The track is unknown or could not be looked up.
    TrackUnresolved,
    /// The key of the file.
    KeyFetched(AudioKey),
    /// The key was denied or could not be fetched.
    KeyDenied,
    /// A decoder session exists on the opened stream.
    DecoderOpened,
    /// The content stream could not be opened.
    StreamUnavailable,
    /// The decoder refused the stream.
    DecoderRejected,
    /// The decoder moved; it now stands at this position, in milliseconds.
    Seeked(u32),
    /// The decoder produced a packet with this timestamp, in milliseconds.
    Packet(u32),
    /// The bitstream has a gap; no packet was produced.
    Gap,
    /// The track has ended.
    EndOfStream,
    /// The decoder failed with something other than a gap.
    DecoderFault,
    /// The device took the packet.
    Written,
    /// The device took the packet after it had run dry.
    Underflow,
}

/// Where the worker stands: the outside work whose outcome it awaits.
#[derive(Clone, Copy, Debug, PartialEq, Eq)]
pub enum Phase {
    /// A command is awaited.
    Intake,
    /// The device is being started for `Play`.
    Resuming,
    /// The device is being stopped for `Pause`.
    Pausing,
    /// The device is being stopped for `Stop`.
    Stopping,
    /// The device is being stopped because playback has ended or failed.
    Halting,
    /// The device is being stopped to make way for a load.
    Preempting(LoadRequest),
    /// The decoder session is being discarded after playback was given up.
    Releasing,
    /// The decoder session is being discarded to make way for a load.
    Clearing(LoadRequest),
    /// The decoder is being moved for `Seek`.
    Repositioning(u32),
    /// The track of a load is being resolved.
    Resolving(LoadRequest),
    /// The key of the chosen file is being fetched.
    FetchingKey(LoadRequest, FileId),
    /// The decoder session of a load is being built.
    Opening(LoadRequest, FileId, AudioKey),
    /// The new decoder is being moved to where the load starts.
    Positioning(LoadRequest),
    /// The device is being started for a load that plays at once.
    Starting(LoadRequest),
    /// A packet is being pulled.
    Decoding,
    /// The packet with this timestamp is being written.
    Rendering(u32),
}

} // verus!
