//! Playback-session core of a voice-channel music bot.
//!
//! Per-guild state that tracks a voice connection, an ordered playback
//! queue, and a timeout-bounded paginated browser over a queue snapshot.
//! The surrounding process (command dispatch, gateway connection, the
//! voice transport itself and the chat API) lives outside this crate and
//! talks to it through plain values.

pub mod browser;
pub mod dates;
pub mod errors;
pub mod messages;
pub mod notify;
pub mod queue;
pub mod session;
pub mod text;
pub mod track;
