//! The playback notifier: reacts to "track started" events from the
//! voice transport and produces the chat announcement to send.
//!
//! One notifier is bound per session when the voice connection is
//! opened. The transport's event payload may carry zero or several
//! tracks; the notifier acts only when exactly one track is reported and
//! is a no-op otherwise. Delivery failures are the glue's business: they
//! are logged, not retried, and never affect playback.

use vstd::prelude::*;

verus! {

use crate::messages::Message;
use crate::messages::is_song_embed;
use crate::messages::now_playing_message;
use crate::messages::spec_now_playing_content;
use crate::track::Track;

/// Bound at session creation: where to announce, and the guild's cached
/// display name for logging.
pub struct Notifier {
    pub notify_channel: u64,
    pub guild_name: String,
}

impl Notifier {
    pub fn new(notify_channel: u64, guild_name: String) -> (n: Notifier)
        ensures
            n.notify_channel == notify_channel,
            n.guild_name == guild_name,
    {
        Notifier { notify_channel, guild_name }
    }

    /// One "track started" event arrived with payload `started`. Exactly
    /// one reported track produces the now-playing announcement for it;
    /// any other payload produces nothing.
    pub fn on_track_event(&self, started: &Vec<Track>) -> (r: Option<Message>)
        ensures
            started@.len() == 1 ==> (r matches Some(m) && m.content@ == spec_now_playing_content(
                started@[0].title,
            ) && (m.embed matches Some(e) && is_song_embed(started@[0], e))),
            started@.len() != 1 ==> r is None,
    {
        if started.len() == 1 {
            Some(now_playing_message(&started[0]))
        } else {
            None
        }
    }
}

} // verus!
