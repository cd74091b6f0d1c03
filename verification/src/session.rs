//! Guild sessions and the process-wide session registry.
//!
//! One session per guild with an active voice connection; the registry
//! maps guild identifier to session and is mutated only by join and
//! leave. Every queue mutation for a guild goes through the registry, so
//! mutations against one guild's queue are serialized by the `&mut`
//! access the registry demands, while distinct guilds stay independent.

use std::collections::HashMap;
use vstd::prelude::*;

verus! {

use crate::errors::Error;
use crate::queue::PlaybackQueue;
use crate::queue::spec_skip_count;
use crate::track::Track;

broadcast use vstd::std_specs::hash::group_hash_axioms;

/// An explicit channel argument, as command dispatch hands it over: the
/// channel's identifier and whether it is a voice channel.
#[derive(Clone, Copy, Debug, PartialEq, Eq, Structural)]
pub struct ChannelRef {
    pub id: u64,
    pub is_voice: bool,
}

/// Picks the voice channel a new session should join: an explicit
/// argument wins but must be a voice channel; otherwise the invoking
/// user's current voice channel; failing both, there is nothing to join.
pub fn resolve_voice_channel(explicit: Option<ChannelRef>, user_voice_channel: Option<u64>) -> (r:
    Result<u64, Error>)
    ensures
        match explicit {
            Some(c) => r == if c.is_voice {
                Ok::<u64, Error>(c.id)
            } else {
                Err::<u64, Error>(Error::NotAVoiceChannel)
            },
            None => r == match user_voice_channel {
                Some(id) => Ok::<u64, Error>(id),
                None => Err::<u64, Error>(Error::NoVoiceChannel),
            },
        },
{
    match explicit {
        Some(c) => if c.is_voice {
            Ok(c.id)
        } else {
            Err(Error::NotAVoiceChannel)
        },
        None => match user_voice_channel {
            Some(id) => Ok(id),
            None => Err(Error::NoVoiceChannel),
        },
    }
}

/// Per-guild bundle: the voice connection's guild, the chat channel that
/// now-playing notifications go to, the guild's cached display name, and
/// the guild's playback queue.
pub struct GuildSession {
    pub guild_id: u64,
    /// The voice channel the session's connection joined.
    pub voice_channel: u64,
    /// The chat channel that now-playing notifications are sent to.
    pub notify_channel: u64,
    /// Cached display name, for messages and logs.
    pub guild_name: String,
    pub queue: PlaybackQueue,
}

/// The parts of a session that queue mutations leave untouched.
pub open spec fn same_identity(a: GuildSession, b: GuildSession) -> bool {
    &&& a.guild_id == b.guild_id
    &&& a.voice_channel == b.voice_channel
    &&& a.notify_channel == b.notify_channel
    &&& a.guild_name == b.guild_name
}

/// Process-wide mapping from guild identifier to guild session, alive
/// for the process lifetime, mutated only by join and leave.
pub struct SessionRegistry {
    sessions: HashMap<u64, GuildSession>,
}

impl View for SessionRegistry {
    type V = Map<u64, GuildSession>;

    closed spec fn view(&self) -> Map<u64, GuildSession> {
        self.sessions@
    }
}

impl SessionRegistry {
    pub fn new() -> (r: SessionRegistry)
        ensures
            r@ == Map::<u64, GuildSession>::empty(),
    {
        SessionRegistry { sessions: HashMap::new() }
    }

    pub fn contains(&self, guild_id: u64) -> (b: bool)
        ensures
            b == self@.contains_key(guild_id),
    {
        self.sessions.contains_key(&guild_id)
    }

    pub fn get(&self, guild_id: u64) -> (r: Option<&GuildSession>)
        ensures
            match r {
                Some(s) => self@.contains_key(guild_id) && *s == self@[guild_id],
                None => !self@.contains_key(guild_id),
            },
    {
        self.sessions.get(&guild_id)
    }

    /// Lazy session creation, the first half of `join_or_get`: when the
    /// guild already has a session nothing changes and the result is
    /// `false`; otherwise a session with an empty queue is registered and
    /// the result is `true` — the caller has just opened the voice
    /// connection and the first enqueued track is about to play.
    pub fn join(
        &mut self,
        guild_id: u64,
        voice_channel: u64,
        notify_channel: u64,
        guild_name: String,
    ) -> (created: bool)
        ensures
            old(self)@.contains_key(guild_id) ==> !created && final(self)@ == old(self)@,
            !old(self)@.contains_key(guild_id) ==> created && {
                &&& final(self)@.contains_key(guild_id)
                &&& final(self)@ == old(self)@.insert(guild_id, final(self)@[guild_id])
                &&& final(self)@[guild_id].guild_id == guild_id
                &&& final(self)@[guild_id].voice_channel == voice_channel
                &&& final(self)@[guild_id].notify_channel == notify_channel
                &&& final(self)@[guild_id].guild_name == guild_name
                &&& final(self)@[guild_id].queue@ == Seq::<Track>::empty()
            },
    {
        if self.sessions.contains_key(&guild_id) {
            false
        } else {
            let session = GuildSession {
                guild_id,
                voice_channel,
                notify_channel,
                guild_name,
                queue: PlaybackQueue::new(),
            };
            self.sessions.insert(guild_id, session);
            true
        }
    }

    /// Tears the guild's session down; the caller closes the voice
    /// connection. Fails when the guild has no session.
    pub fn leave(&mut self, guild_id: u64) -> (r: Result<(), Error>)
        ensures
            old(self)@.contains_key(guild_id) ==> r == Ok::<(), Error>(())
                && final(self)@ == old(self)@.remove(guild_id),
            !old(self)@.contains_key(guild_id) ==> r == Err::<(), Error>(Error::NotConnected)
                && final(self)@ == old(self)@,
    {
        match self.sessions.remove(&guild_id) {
            Some(_) => Ok(()),
            None => Err(Error::NotConnected),
        }
    }

    /// Appends `t` to the guild's queue. `Ok(true)` says the queue was
    /// empty, so `t` became the current track and playback starts now.
    pub fn enqueue(&mut self, guild_id: u64, t: Track) -> (r: Result<bool, Error>)
        ensures
            !old(self)@.contains_key(guild_id) ==> r == Err::<bool, Error>(Error::NotConnected)
                && final(self)@ == old(self)@,
            old(self)@.contains_key(guild_id) ==> {
                &&& final(self)@.contains_key(guild_id)
                &&& final(self)@ == old(self)@.insert(guild_id, final(self)@[guild_id])
                &&& same_identity(old(self)@[guild_id], final(self)@[guild_id])
                &&& final(self)@[guild_id].queue@ == old(self)@[guild_id].queue@.push(
                    t,
                )
                &&& r == Ok::<bool, Error>(old(self)@[guild_id].queue@.len() == 0)
            },
    {
        match self.sessions.remove(&guild_id) {
            None => Err(Error::NotConnected),
            Some(mut s) => {
                let started = s.queue.is_empty();
                s.queue.enqueue(t);
                self.sessions.insert(guild_id, s);
                proof {
                    assert(final(self)@ =~= old(self)@.insert(guild_id, final(self)@[guild_id]));
                }
                Ok(started)
            },
        }
    }

    /// Detaches up to `n` tracks from the front of the guild's queue,
    /// returning the first detached track and, in front-to-back order,
    /// every detached track, so the caller stops each handle exactly once.
    pub fn skip(&mut self, guild_id: u64, n: usize) -> (r: Result<
        (Option<Track>, Vec<Track>),
        Error,
    >)
        requires
            n >= 1,
        ensures
            !old(self)@.contains_key(guild_id) ==> r == Err::<(Option<Track>, Vec<Track>), Error>(
                Error::NotConnected,
            ) && final(self)@ == old(self)@,
            old(self)@.contains_key(guild_id) ==> {
                let q0 = old(self)@[guild_id].queue@;
                let k = spec_skip_count(q0.len(), n as nat) as int;
                &&& final(self)@.contains_key(guild_id)
                &&& final(self)@ == old(self)@.insert(guild_id, final(self)@[guild_id])
                &&& same_identity(old(self)@[guild_id], final(self)@[guild_id])
                &&& final(self)@[guild_id].queue@ == q0.skip(k)
                &&& r matches Ok(p) && p.1@ == q0.take(k) && p.0 == (if q0.len() == 0 {
                    None::<Track>
                } else {
                    Some(q0[0])
                })
            },
    {
        match self.sessions.remove(&guild_id) {
            None => Err(Error::NotConnected),
            Some(mut s) => {
                let out = s.queue.skip(n);
                self.sessions.insert(guild_id, s);
                proof {
                    assert(final(self)@ =~= old(self)@.insert(guild_id, final(self)@[guild_id]));
                }
                Ok(out)
            },
        }
    }

    /// Removes the pending track at queue position `index` (`1 <= index
    /// < len`) from the guild's queue and returns it, so the caller stops
    /// its handle exactly once; any other index leaves the queue as it
    /// was and is reported invalid.
    pub fn remove_track(&mut self, guild_id: u64, index: usize) -> (r: Result<Track, Error>)
        ensures
            !old(self)@.contains_key(guild_id) ==> r == Err::<Track, Error>(Error::NotConnected)
                && final(self)@ == old(self)@,
            old(self)@.contains_key(guild_id) ==> {
                let q0 = old(self)@[guild_id].queue@;
                &&& final(self)@.contains_key(guild_id)
                &&& final(self)@ == old(self)@.insert(guild_id, final(self)@[guild_id])
                &&& same_identity(old(self)@[guild_id], final(self)@[guild_id])
                &&& (1 <= index < q0.len() ==> r == Ok::<Track, Error>(q0[index as int])
                    && final(self)@[guild_id].queue@ == q0.remove(index as int))
                &&& (!(1 <= index < q0.len()) ==> r == Err::<Track, Error>(Error::InvalidIndex)
                    && final(self)@[guild_id].queue@ == q0)
            },
    {
        match self.sessions.remove(&guild_id) {
            None => Err(Error::NotConnected),
            Some(mut s) => {
                let out = s.queue.remove(index);
                self.sessions.insert(guild_id, s);
                proof {
                    assert(final(self)@ =~= old(self)@.insert(guild_id, final(self)@[guild_id]));
                }
                out
            },
        }
    }

    /// The guild's current track: `Ok(None)` when the session exists but
    /// nothing is playing, `NotConnected` when there is no session.
    pub fn current(&self, guild_id: u64) -> (r: Result<Option<&Track>, Error>)
        ensures
            self@.contains_key(guild_id) ==> {
                let q = self@[guild_id].queue@;
                match r {
                    Ok(Some(t)) => q.len() > 0 && *t == q[0],
                    Ok(None) => q.len() == 0,
                    Err(_) => false,
                }
            },
            !self@.contains_key(guild_id) ==> r == Err::<Option<&Track>, Error>(
                Error::NotConnected,
            ),
    {
        match self.sessions.get(&guild_id) {
            Some(s) => Ok(s.queue.current()),
            None => Err(Error::NotConnected),
        }
    }

    /// An ordered copy of the guild's full queue, taken under the same
    /// exclusive access as mutations, for the paginated browser.
    pub fn snapshot(&self, guild_id: u64) -> (r: Result<Vec<Track>, Error>)
        ensures
            self@.contains_key(guild_id) ==> (r matches Ok(v) && v@ == self@[guild_id].queue@),
            !self@.contains_key(guild_id) ==> r == Err::<Vec<Track>, Error>(Error::NotConnected),
    {
        match self.sessions.get(&guild_id) {
            Some(s) => Ok(s.queue.snapshot()),
            None => Err(Error::NotConnected),
        }
    }
}

} // verus!
