//! The playback queue mutation engine.
//!
//! An ordered sequence of tracks, front-ordered: element 0 is the
//! currently playing track (if any), elements 1.. are pending. Skip and
//! removal detach tracks from the queue and hand them back in order, so
//! the caller can stop each detached track's transport handle exactly
//! once before discarding it.

use vstd::prelude::*;

verus! {

use crate::errors::Error;
use crate::track::Track;

/// How many tracks `skip(n)` detaches from a queue of length `len`.
pub open spec fn spec_skip_count(len: nat, n: nat) -> nat {
    if n <= len {
        n
    } else {
        len
    }
}

/// A snapshot taken right after `enqueue` reflects exactly the enqueue:
/// one track longer, the new track at the tail, everything else where it
/// was. (A snapshot equals the queue's view, so this speaks of the view
/// an enqueue leaves behind.)
pub proof fn lemma_snapshot_reflects_enqueue(q: Seq<Track>, t: Track)
    ensures
        q.push(t).len() == q.len() + 1,
        q.push(t)[q.len() as int] == t,
        forall|i: int| 0 <= i < q.len() ==> q.push(t)[i] == q[i],
{
}

/// A snapshot taken right after `skip(n)` reflects exactly the skip: the
/// first `min(n, len)` tracks are gone and every survivor moved forward
/// by that amount, in order, with no other change.
pub proof fn lemma_snapshot_reflects_skip(q: Seq<Track>, n: nat)
    ensures
        q.skip(spec_skip_count(q.len(), n) as int).len() == q.len() - spec_skip_count(q.len(), n),
        forall|i: int|
            0 <= i < q.len() - spec_skip_count(q.len(), n) ==> q.skip(
                spec_skip_count(q.len(), n) as int,
            )[i] == q[i + spec_skip_count(q.len(), n)],
{
}

/// A snapshot taken right after a successful `remove(index)` reflects
/// exactly the removal: one track shorter, tracks before `index` where
/// they were, tracks after it moved forward by one.
pub proof fn lemma_snapshot_reflects_remove(q: Seq<Track>, index: int)
    requires
        1 <= index < q.len(),
    ensures
        q.remove(index).len() == q.len() - 1,
        forall|i: int| 0 <= i < index ==> q.remove(index)[i] == q[i],
        forall|i: int| index <= i < q.len() - 1 ==> q.remove(index)[i] == q[i + 1],
{
}

/// An ordered playback queue for one guild. Its view is the sequence of
/// queued tracks, the currently playing one first.
pub struct PlaybackQueue {
    tracks: Vec<Track>,
}

impl View for PlaybackQueue {
    type V = Seq<Track>;

    closed spec fn view(&self) -> Seq<Track> {
        self.tracks@
    }
}

impl PlaybackQueue {
    /// An empty queue: nothing playing, nothing pending.
    pub fn new() -> (q: PlaybackQueue)
        ensures
            q@ == Seq::<Track>::empty(),
    {
        PlaybackQueue { tracks: Vec::new() }
    }

    pub fn len(&self) -> (n: usize)
        ensures
            n == self@.len(),
    {
        self.tracks.len()
    }

    pub fn is_empty(&self) -> (b: bool)
        ensures
            b == (self@.len() == 0),
    {
        self.tracks.len() == 0
    }

    /// Appends `t` at the tail. If the queue was empty, `t` becomes the
    /// current track (element 0) and playback is about to start.
    pub fn enqueue(&mut self, t: Track)
        ensures
            final(self)@ == old(self)@.push(t),
            old(self)@.len() == 0 ==> final(self)@[0] == t,
    {
        self.tracks.push(t);
    }

    /// The currently playing track, or none when the queue is empty.
    pub fn current(&self) -> (r: Option<&Track>)
        ensures
            match r {
                Some(t) => self@.len() > 0 && *t == self@[0],
                None => self@.len() == 0,
            },
    {
        if self.tracks.len() > 0 {
            Some(&self.tracks[0])
        } else {
            None
        }
    }

    /// An ordered copy of the full queue, for read-only consumers such as
    /// the paginated browser.
    pub fn snapshot(&self) -> (r: Vec<Track>)
        ensures
            r@ == self@,
    {
        let mut out: Vec<Track> = Vec::new();
        let mut i: usize = 0;
        while i < self.tracks.len()
            invariant
                i <= self.tracks.len(),
                out@ =~= self.tracks@.take(i as int),
            decreases self.tracks.len() - i,
        {
            out.push(self.tracks[i].clone());
            i = i + 1;
        }
        proof {
            assert(out@ =~= self@);
        }
        out
    }

    /// Detaches up to `n` tracks from the front, in front-to-back order.
    /// Returns the first detached track (for notification) — none when the
    /// queue was already empty — together with every detached track, each
    /// exactly once and in the order it left the front, so the caller can
    /// stop each one's transport handle.
    pub fn skip(&mut self, n: usize) -> (r: (Option<Track>, Vec<Track>))
        requires
            n >= 1,
        ensures
            final(self)@ == old(self)@.skip(spec_skip_count(old(self)@.len(), n as nat) as int),
            r.1@ == old(self)@.take(spec_skip_count(old(self)@.len(), n as nat) as int),
            r.0 == if old(self)@.len() == 0 {
                None::<Track>
            } else {
                Some(old(self)@[0])
            },
    {
        let len = self.tracks.len();
        let k = if n <= len {
            n
        } else {
            len
        };
        let mut removed: Vec<Track> = Vec::new();
        let mut i: usize = 0;
        while i < k
            invariant
                i <= k <= old(self)@.len(),
                removed@ =~= old(self)@.take(i as int),
                self.tracks@ =~= old(self)@.skip(i as int),
            decreases k - i,
        {
            let t = self.tracks.remove(0);
            proof {
                assert(t == old(self)@[i as int]);
                assert(removed@.push(t) =~= old(self)@.take(i + 1));
                assert(old(self)@.skip(i as int).remove(0) =~= old(self)@.skip(i + 1));
            }
            removed.push(t);
            i = i + 1;
        }
        let first = if removed.len() > 0 {
            Some(removed[0].clone())
        } else {
            None
        };
        proof {
            assert(self.tracks@ =~= old(self)@.skip(k as int));
            assert(removed@ =~= old(self)@.take(k as int));
        }
        (first, removed)
    }

    /// Removes the track at position `index` of the queue. Only pending
    /// positions may be removed: `index` must lie in `[1, len - 1]`, so
    /// the currently playing track (position 0) stays. On success the
    /// detached track is returned so the caller can stop its transport
    /// handle exactly once; otherwise the queue is unchanged and the
    /// index is reported invalid.
    pub fn remove(&mut self, index: usize) -> (r: Result<Track, Error>)
        ensures
            1 <= index < old(self)@.len() ==> r == Ok::<Track, Error>(old(self)@[index as int])
                && final(self)@ == old(self)@.remove(index as int),
            !(1 <= index < old(self)@.len()) ==> r == Err::<Track, Error>(Error::InvalidIndex)
                && final(self)@ == old(self)@,
    {
        if 1 <= index && index < self.tracks.len() {
            Ok(self.tracks.remove(index))
        } else {
            Err(Error::InvalidIndex)
        }
    }
}

} // verus!
