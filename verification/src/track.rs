//! One playable item: immutable metadata plus an opaque transport handle.

use vstd::prelude::*;

verus! {

/// One playable item. The metadata is immutable; `handle` identifies the
/// track inside the voice transport, so the surrounding process can stop
/// or query it. Durations are whole seconds; the upload date, when known,
/// is the source's 8-digit `YYYYMMDD` field kept verbatim.
#[derive(Debug)]
pub struct Track {
    /// Identifies this track's handle inside the voice transport.
    pub handle: u64,
    pub title: Option<String>,
    pub source_url: Option<String>,
    pub artist: Option<String>,
    pub channel: Option<String>,
    pub thumbnail: Option<String>,
    pub duration_secs: Option<u64>,
    pub upload_date: Option<String>,
}

pub(crate) fn clone_opt_string(o: &Option<String>) -> (r: Option<String>)
    ensures
        r == *o,
{
    match o {
        Some(s) => Some(s.clone()),
        None => None,
    }
}

impl Clone for Track {
    fn clone(&self) -> (r: Self)
        ensures
            r == *self,
    {
        Track {
            handle: self.handle,
            title: clone_opt_string(&self.title),
            source_url: clone_opt_string(&self.source_url),
            artist: clone_opt_string(&self.artist),
            channel: clone_opt_string(&self.channel),
            thumbnail: clone_opt_string(&self.thumbnail),
            duration_secs: self.duration_secs,
            upload_date: clone_opt_string(&self.upload_date),
        }
    }
}

} // verus!
