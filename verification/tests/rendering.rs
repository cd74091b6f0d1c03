use muse::dates::upload_date_footer;
use muse::errors::Error;
use muse::messages::{
    error_reply, now_playing_message, play_reply, remove_reply, skip_reply, song_embed,
};
use muse::text::{format_duration, u64_to_string};
use muse::track::Track;

fn bare_track() -> Track {
    Track {
        handle: 1,
        title: None,
        source_url: None,
        artist: None,
        channel: None,
        thumbnail: None,
        duration_secs: None,
        upload_date: None,
    }
}

fn full_track() -> Track {
    Track {
        handle: 1,
        title: Some("Song".to_string()),
        source_url: Some("https://example.test/song".to_string()),
        artist: Some("Artist".to_string()),
        channel: Some("Channel".to_string()),
        thumbnail: Some("https://example.test/thumb.png".to_string()),
        duration_secs: Some(61),
        upload_date: Some("20230314".to_string()),
    }
}

#[test]
fn duration_renders_minutes_and_padded_seconds() {
    assert_eq!(format_duration(0), "0:00");
    assert_eq!(format_duration(5), "0:05");
    assert_eq!(format_duration(61), "1:01");
    assert_eq!(format_duration(600), "10:00");
    assert_eq!(format_duration(3599), "59:59");
    assert_eq!(format_duration(3600), "60:00");
}

#[test]
fn numbers_render_in_decimal() {
    assert_eq!(u64_to_string(0), "0");
    assert_eq!(u64_to_string(7), "7");
    assert_eq!(u64_to_string(10), "10");
    assert_eq!(u64_to_string(1234567890), "1234567890");
}

#[test]
fn upload_dates_become_footers_only_when_valid() {
    assert_eq!(
        upload_date_footer("20230314").as_deref(),
        Some("Uploaded on 2023/03/14")
    );
    // A leap day in a leap year is fine; in other years it is not.
    assert_eq!(
        upload_date_footer("20240229").as_deref(),
        Some("Uploaded on 2024/02/29")
    );
    assert_eq!(upload_date_footer("20230229"), None);
    // Century years follow the 400-year rule.
    assert_eq!(upload_date_footer("19000229"), None);
    assert_eq!(
        upload_date_footer("20000229").as_deref(),
        Some("Uploaded on 2000/02/29")
    );
    // Nonexistent days and months.
    assert_eq!(upload_date_footer("20230431"), None);
    assert_eq!(upload_date_footer("20231301"), None);
    assert_eq!(upload_date_footer("20230100"), None);
    // Partial or non-digit fields are silently omitted.
    assert_eq!(upload_date_footer("2023031"), None);
    assert_eq!(upload_date_footer("202303145"), None);
    assert_eq!(upload_date_footer("2023031a"), None);
    assert_eq!(upload_date_footer(""), None);
}

#[test]
fn song_embed_carries_the_track_summary() {
    let e = song_embed(&full_track());
    assert_eq!(e.color, 0x0789f0);
    assert_eq!(e.title.as_deref(), Some("Song"));
    assert_eq!(e.url.as_deref(), Some("https://example.test/song"));
    assert_eq!(e.author_name.as_deref(), Some("Artist"));
    assert_eq!(e.image_url.as_deref(), Some("https://example.test/thumb.png"));
    assert_eq!(e.footer.as_deref(), Some("1:01 • Uploaded on 2023/03/14"));
    assert!(e.fields.is_empty());
}

#[test]
fn song_embed_falls_back_to_channel_and_omits_unknowns() {
    let mut t = full_track();
    t.artist = None;
    let e = song_embed(&t);
    assert_eq!(e.author_name.as_deref(), Some("Channel"));

    t.channel = None;
    let e = song_embed(&t);
    assert_eq!(e.author_name, None);

    // Only a duration: the footer is just the duration.
    t.upload_date = None;
    let e = song_embed(&t);
    assert_eq!(e.footer.as_deref(), Some("1:01"));

    // Only a (valid) date: the footer is just the date line.
    t.duration_secs = None;
    t.upload_date = Some("20230314".to_string());
    let e = song_embed(&t);
    assert_eq!(e.footer.as_deref(), Some("Uploaded on 2023/03/14"));

    // An invalid date with a duration: the duration alone.
    t.duration_secs = Some(61);
    t.upload_date = Some("20230231".to_string());
    let e = song_embed(&t);
    assert_eq!(e.footer.as_deref(), Some("1:01"));

    let e = song_embed(&bare_track());
    assert_eq!(e.footer, None);
    assert_eq!(e.title, None);
    assert_eq!(e.author_name, None);
}

#[test]
fn reply_texts_follow_the_outcome() {
    let t = full_track();
    assert_eq!(play_reply(&t, true).content, "Now playing *Song*.");
    assert_eq!(play_reply(&t, false).content, "Queued *Song*.");
    assert_eq!(play_reply(&bare_track(), true).content, "Now playing a new song.");
    assert_eq!(play_reply(&bare_track(), false).content, "Queued a new song.");

    let m = now_playing_message(&t);
    assert_eq!(m.content, "Now playing *Song*.");
    assert!(m.embed.is_some());

    let m = skip_reply(1, Some(&t));
    assert_eq!(m.content, "Skipped *Song*.");
    assert!(m.embed.is_some());
    let m = skip_reply(3, Some(&t));
    assert_eq!(m.content, "Skipped 3 songs.");
    assert!(m.embed.is_none());
    let m = skip_reply(1, None);
    assert_eq!(m.content, "Skipped a song.");
    assert!(m.embed.is_none());

    let m = remove_reply(&t);
    assert_eq!(m.content, "Removed *Song*.");
    assert!(m.embed.is_some());
    assert_eq!(remove_reply(&bare_track()).content, "Removed a song.");
}

#[test]
fn each_error_has_its_reply() {
    assert_eq!(
        error_reply(Error::NoVoiceChannel),
        "I'm not in a voice channel. Join or specify one."
    );
    assert_eq!(error_reply(Error::NotAVoiceChannel), "That is not a voice channel.");
    assert_eq!(error_reply(Error::NotConnected), "I'm not in a voice channel.");
    assert_eq!(error_reply(Error::InvalidIndex), "Invalid song number.");
    assert_eq!(error_reply(Error::TransportUnavailable), "There was an error.");
    assert_eq!(error_reply(Error::StopFailed), "There was an error.");
}
