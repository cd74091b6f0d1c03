//! Structured chat content: the track summary view and the reply texts
//! of the playback commands.
//!
//! An [`Embed`] is plain data for the chat collaborator to render; the
//! glue around the library turns it into the chat API's own builder
//! calls. The track summary view is shared by the now-playing notifier
//! and the browser: title (as a link when a source URL is known), an
//! author line (artist, else channel, else omitted), the duration as
//! `M:SS`, and an optional upload-date footer.

use vstd::prelude::*;
use vstd::string::*;

verus! {

use crate::dates::spec_date_ok;
use crate::dates::spec_upload_footer;
use crate::dates::upload_date_footer;
use crate::errors::Error;
use crate::text::format_duration;
use crate::text::spec_dec;
use crate::text::spec_duration;
use crate::text::u64_to_string;
use crate::track::Track;
use crate::track::clone_opt_string;

/// The accent color of every embed the bot sends.
pub const EMBED_COLOR: u32 = 0x0789f0;

/// One field block of an embed.
pub struct EmbedField {
    pub name: String,
    pub value: String,
    pub inline: bool,
}

/// A rich summary block: plain data, rendered by the chat collaborator.
pub struct Embed {
    pub color: u32,
    pub title: Option<String>,
    pub url: Option<String>,
    pub author_name: Option<String>,
    pub image_url: Option<String>,
    pub footer: Option<String>,
    pub fields: Vec<EmbedField>,
}

/// A chat message: text content plus an optional summary block.
pub struct Message {
    pub content: String,
    pub embed: Option<Embed>,
}

/// The footer of a track summary: the `M:SS` duration and the
/// upload-date line, whichever of the two are available, joined with
/// a bullet; nothing when neither is available.
pub open spec fn spec_song_footer(t: Track) -> Option<Seq<char>> {
    match (t.duration_secs, t.upload_date) {
        (Some(secs), Some(d)) => if spec_date_ok(d@) {
            Some(spec_duration(secs as nat) + " • "@ + spec_upload_footer(d@))
        } else {
            Some(spec_duration(secs as nat))
        },
        (Some(secs), None) => Some(spec_duration(secs as nat)),
        (None, Some(d)) => if spec_date_ok(d@) {
            Some(spec_upload_footer(d@))
        } else {
            None
        },
        (None, None) => None,
    }
}

/// What the track summary view promises of an embed built for `t`.
pub open spec fn is_song_embed(t: Track, e: Embed) -> bool {
    &&& e.color == EMBED_COLOR
    &&& e.title == t.title
    &&& e.url == t.source_url
    &&& e.author_name == (match t.artist {
        Some(a) => Some(a),
        None => t.channel,
    })
    &&& e.image_url == t.thumbnail
    &&& e.fields@.len() == 0
    &&& match e.footer {
        Some(f) => spec_song_footer(t) matches Some(v) && f@ == v,
        None => spec_song_footer(t) is None,
    }
}

/// Builds the standard track summary view for `t`.
pub fn song_embed(t: &Track) -> (e: Embed)
    ensures
        is_song_embed(*t, e),
{
    let duration_part: Option<String> = match &t.duration_secs {
        Some(secs) => Some(format_duration(*secs)),
        None => None,
    };
    let date_part: Option<String> = match &t.upload_date {
        Some(d) => upload_date_footer(d.as_str()),
        None => None,
    };
    let footer: Option<String> = match (duration_part, date_part) {
        (Some(dur), Some(date)) => {
            let mut f = dur;
            f.append(" • ");
            f.append(date.as_str());
            Some(f)
        },
        (Some(dur), None) => Some(dur),
        (None, Some(date)) => Some(date),
        (None, None) => None,
    };
    Embed {
        color: EMBED_COLOR,
        title: clone_opt_string(&t.title),
        url: clone_opt_string(&t.source_url),
        author_name: match &t.artist {
            Some(a) => Some(a.clone()),
            None => clone_opt_string(&t.channel),
        },
        image_url: clone_opt_string(&t.thumbnail),
        footer,
        fields: Vec::new(),
    }
}

/// The text of a now-playing announcement: the track's title, or a
/// generic placeholder when the title is unknown.
pub open spec fn spec_now_playing_content(title: Option<String>) -> Seq<char> {
    match title {
        Some(t) => "Now playing *"@ + t@ + "*."@,
        None => "Now playing a new song."@,
    }
}

pub fn now_playing_content(title: &Option<String>) -> (r: String)
    ensures
        r@ == spec_now_playing_content(*title),
{
    match title {
        Some(t) => {
            let mut s = String::from_str("Now playing *");
            s.append(t.as_str());
            s.append("*.");
            proof {
                assert(s@ =~= spec_now_playing_content(Some(*t)));
            }
            s
        },
        None => String::from_str("Now playing a new song."),
    }
}

/// The message announcing the currently playing track: the now-playing
/// text plus the track's summary view.
pub fn now_playing_message(t: &Track) -> (m: Message)
    ensures
        m.content@ == spec_now_playing_content(t.title),
        m.embed matches Some(e) && is_song_embed(*t, e),
{
    Message { content: now_playing_content(&t.title), embed: Some(song_embed(t)) }
}

/// The reply to a successful `play`: announces the track as now playing
/// when it starts at once, as queued otherwise.
pub open spec fn spec_play_content(title: Option<String>, first_play: bool) -> Seq<char> {
    match title {
        Some(t) => if first_play {
            "Now playing *"@ + t@ + "*."@
        } else {
            "Queued *"@ + t@ + "*."@
        },
        None => if first_play {
            "Now playing a new song."@
        } else {
            "Queued a new song."@
        },
    }
}

pub fn play_reply(t: &Track, first_play: bool) -> (m: Message)
    ensures
        m.content@ == spec_play_content(t.title, first_play),
        m.embed matches Some(e) && is_song_embed(*t, e),
{
    let content = if first_play {
        now_playing_content(&t.title)
    } else {
        match &t.title {
            Some(ti) => {
                let mut s = String::from_str("Queued *");
                s.append(ti.as_str());
                s.append("*.");
                proof {
                    assert(s@ =~= "Queued *"@ + ti@ + "*."@);
                }
                s
            },
            None => String::from_str("Queued a new song."),
        }
    };
    Message { content, embed: Some(song_embed(t)) }
}

/// The reply to a `skip`: for a single skip, the skipped track's title
/// (or a generic stand-in) with its summary view; for a multiple skip,
/// just the count.
pub open spec fn spec_skip_content(n: nat, first: Option<Track>) -> Seq<char> {
    if n == 1 {
        match first {
            Some(t) => match t.title {
                Some(ti) => "Skipped *"@ + ti@ + "*."@,
                None => "Skipped a song."@,
            },
            None => "Skipped a song."@,
        }
    } else {
        "Skipped "@ + spec_dec(n) + " songs."@
    }
}

pub fn skip_reply(n: u64, first: Option<&Track>) -> (m: Message)
    requires
        n >= 1,
    ensures
        m.content@ == spec_skip_content(
            n as nat,
            match first {
                Some(t) => Some(*t),
                None => None,
            },
        ),
        match first {
            Some(t) => n == 1 ==> (m.embed matches Some(e) && is_song_embed(*t, e)),
            None => true,
        },
        !(n == 1 && first is Some) ==> m.embed is None,
{
    if n == 1 {
        match first {
            Some(t) => {
                let content = match &t.title {
                    Some(ti) => {
                        let mut s = String::from_str("Skipped *");
                        s.append(ti.as_str());
                        s.append("*.");
                        proof {
                            assert(s@ =~= "Skipped *"@ + ti@ + "*."@);
                        }
                        s
                    },
                    None => String::from_str("Skipped a song."),
                };
                Message { content, embed: Some(song_embed(t)) }
            },
            None => Message { content: String::from_str("Skipped a song."), embed: None },
        }
    } else {
        let mut s = String::from_str("Skipped ");
        s.append(u64_to_string(n).as_str());
        s.append(" songs.");
        proof {
            assert(s@ =~= "Skipped "@ + spec_dec(n as nat) + " songs."@);
        }
        Message { content: s, embed: None }
    }
}

/// The reply to a successful `remove`: the removed track's title (or a
/// generic stand-in) with its summary view.
pub open spec fn spec_remove_content(title: Option<String>) -> Seq<char> {
    match title {
        Some(t) => "Removed *"@ + t@ + "*."@,
        None => "Removed a song."@,
    }
}

pub fn remove_reply(t: &Track) -> (m: Message)
    ensures
        m.content@ == spec_remove_content(t.title),
        m.embed matches Some(e) && is_song_embed(*t, e),
{
    let content = match &t.title {
        Some(ti) => {
            let mut s = String::from_str("Removed *");
            s.append(ti.as_str());
            s.append("*.");
            proof {
                assert(s@ =~= "Removed *"@ + ti@ + "*."@);
            }
            s
        },
        None => String::from_str("Removed a song."),
    };
    Message { content, embed: Some(song_embed(t)) }
}

/// The ephemeral reply text for each reportable error. `StopFailed` and
/// `TransportUnavailable` are never surfaced with detail: the user sees
/// a generic failure line while the real cause goes to the log.
pub open spec fn spec_error_reply(e: Error) -> Seq<char> {
    match e {
        Error::NoVoiceChannel => "I'm not in a voice channel. Join or specify one."@,
        Error::NotAVoiceChannel => "That is not a voice channel."@,
        Error::NotConnected => "I'm not in a voice channel."@,
        Error::InvalidIndex => "Invalid song number."@,
        Error::TransportUnavailable => "There was an error."@,
        Error::StopFailed => "There was an error."@,
    }
}

pub fn error_reply(e: Error) -> (r: String)
    ensures
        r@ == spec_error_reply(e),
{
    match e {
        Error::NoVoiceChannel => String::from_str("I'm not in a voice channel. Join or specify one."),
        Error::NotAVoiceChannel => String::from_str("That is not a voice channel."),
        Error::NotConnected => String::from_str("I'm not in a voice channel."),
        Error::InvalidIndex => String::from_str("Invalid song number."),
        Error::TransportUnavailable => String::from_str("There was an error."),
        Error::StopFailed => String::from_str("There was an error."),
    }
}

} // verus!
