//! The error vocabulary of the playback core.

use vstd::prelude::*;

verus! {

/// Everything that a playback-core operation can report to its caller.
///
/// `NoVoiceChannel`, `NotAVoiceChannel`, `NotConnected` and `InvalidIndex`
/// describe user-input problems and are surfaced as ephemeral replies.
/// `TransportUnavailable` means the voice-transport manager could not be
/// acquired at all; `StopFailed` is only ever logged, never surfaced, and
/// never aborts a removal.
#[derive(Clone, Copy, Debug, PartialEq, Eq, Structural)]
pub enum Error {
    /// No explicit channel was given and the invoking user is not in one.
    NoVoiceChannel,
    /// An explicit channel was given but it is not a voice channel.
    NotAVoiceChannel,
    /// The guild has no active session.
    NotConnected,
    /// A removal index outside the pending range of the queue.
    InvalidIndex,
    /// The voice-transport manager could not be acquired.
    TransportUnavailable,
    /// The transport failed to stop a track handle.
    StopFailed,
}

} // verus!
