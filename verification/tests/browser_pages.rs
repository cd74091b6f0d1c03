use muse::browser::{parse_nav, total_pages, Browser, NavInput, INACTIVITY_WINDOW_SECS, PAGE_SIZE};
use muse::track::Track;

fn track(handle: u64, title: &str, url: &str, secs: u64) -> Track {
    Track {
        handle,
        title: Some(title.to_string()),
        source_url: Some(url.to_string()),
        artist: None,
        channel: None,
        thumbnail: None,
        duration_secs: Some(secs),
        upload_date: None,
    }
}

fn snapshot(len: u64) -> Vec<Track> {
    (0..len)
        .map(|h| track(h, &format!("T{h}"), &format!("https://t/{h}"), 65))
        .collect()
}

#[test]
fn total_pages_is_ceil_of_pending_over_page_size() {
    assert_eq!(PAGE_SIZE, 5);
    assert_eq!(total_pages(0), 0);
    assert_eq!(total_pages(1), 1);
    assert_eq!(total_pages(4), 1);
    assert_eq!(total_pages(5), 1);
    assert_eq!(total_pages(6), 2);
    assert_eq!(total_pages(10), 2);
    assert_eq!(total_pages(11), 3);
}

#[test]
fn requested_page_is_clamped() {
    // 7 tracks: 6 pending, 2 pages.
    let b = Browser::new(snapshot(7), 99);
    assert_eq!(b.page(), 1);
    let b = Browser::new(snapshot(7), 0);
    assert_eq!(b.page(), 0);
    let b = Browser::new(snapshot(7), 1);
    assert_eq!(b.page(), 1);
    // Only the now-playing track: no navigable pages, cursor rests at 0.
    let b = Browser::new(snapshot(1), 42);
    assert_eq!(b.page(), 0);
}

#[test]
fn navigation_never_leaves_the_page_range() {
    let mut b = Browser::new(snapshot(12), 0);  // 11 pending -> 3 pages
    b.navigate(NavInput::Previous);
    assert_eq!(b.page(), 0);
    b.navigate(NavInput::Next);
    assert_eq!(b.page(), 1);
    b.navigate(NavInput::Next);
    assert_eq!(b.page(), 2);
    b.navigate(NavInput::Next);
    assert_eq!(b.page(), 2);
    b.navigate(NavInput::Last);
    assert_eq!(b.page(), 2);
    b.navigate(NavInput::First);
    assert_eq!(b.page(), 0);
    b.navigate(NavInput::Last);
    assert_eq!(b.page(), 2);
    b.navigate(NavInput::Previous);
    assert_eq!(b.page(), 1);
}

#[test]
fn controls_rest_at_the_edges() {
    let mut b = Browser::new(snapshot(12), 0);
    let c = b.controls();
    assert!(c.first_disabled && c.previous_disabled);
    assert!(!c.next_disabled && !c.last_disabled);
    b.navigate(NavInput::Next);
    let c = b.controls();
    assert!(!c.first_disabled && !c.previous_disabled);
    assert!(!c.next_disabled && !c.last_disabled);
    b.navigate(NavInput::Last);
    let c = b.controls();
    assert!(!c.first_disabled && !c.previous_disabled);
    assert!(c.next_disabled && c.last_disabled);
}

#[test]
fn no_pending_tracks_means_no_enabled_controls() {
    let b = Browser::new(snapshot(1), 0);
    let c = b.controls();
    assert!(c.first_disabled && c.previous_disabled && c.next_disabled && c.last_disabled);
}

#[test]
fn timeout_disables_the_browser_and_every_control() {
    assert_eq!(INACTIVITY_WINDOW_SECS, 60);
    let mut b = Browser::new(snapshot(12), 1);
    assert!(!b.is_disabled());
    b.expire();
    assert!(b.is_disabled());
    assert_eq!(b.page(), 1);
    let c = b.controls();
    assert!(c.first_disabled && c.previous_disabled && c.next_disabled && c.last_disabled);
}

#[test]
fn parse_nav_recognizes_the_four_buttons() {
    assert_eq!(parse_nav(&"first".to_string()), Some(NavInput::First));
    assert_eq!(parse_nav(&"previous".to_string()), Some(NavInput::Previous));
    assert_eq!(parse_nav(&"next".to_string()), Some(NavInput::Next));
    assert_eq!(parse_nav(&"last".to_string()), Some(NavInput::Last));
    assert_eq!(parse_nav(&"firstx".to_string()), None);
    assert_eq!(parse_nav(&"".to_string()), None);
    assert_eq!(parse_nav(&"stop".to_string()), None);
}

#[test]
fn render_shows_the_window_of_the_current_page() {
    // 8 tracks: now playing T0, pending T1..=T7, 2 pages.
    let mut b = Browser::new(snapshot(8), 0);
    let v = b.render();
    assert_eq!(v.page, 0);
    assert_eq!(v.embed.title.as_deref(), Some("Queue"));
    assert_eq!(v.embed.color, 0x0789f0);
    assert_eq!(v.embed.fields.len(), 2);
    assert_eq!(v.embed.fields[0].name, "Now Playing");
    assert_eq!(v.embed.fields[0].value, "[T0](https://t/0) `1:05`");
    assert_eq!(v.embed.fields[1].name, "Page 1");
    assert_eq!(
        v.embed.fields[1].value,
        "*1.* [T1](https://t/1) `1:05`\n\
         *2.* [T2](https://t/2) `1:05`\n\
         *3.* [T3](https://t/3) `1:05`\n\
         *4.* [T4](https://t/4) `1:05`\n\
         *5.* [T5](https://t/5) `1:05`"
    );
    assert_eq!(v.embed.footer.as_deref(), Some("1/2"));

    b.navigate(NavInput::Next);
    let v = b.render();
    assert_eq!(v.page, 1);
    assert_eq!(v.embed.fields[1].name, "Page 2");
    assert_eq!(
        v.embed.fields[1].value,
        "*6.* [T6](https://t/6) `1:05`\n*7.* [T7](https://t/7) `1:05`"
    );
    assert_eq!(v.embed.footer.as_deref(), Some("2/2"));
    assert!(v.controls.next_disabled && v.controls.last_disabled);
}

#[test]
fn render_with_nothing_pending_shows_only_now_playing() {
    let b = Browser::new(snapshot(1), 0);
    let v = b.render();
    assert_eq!(v.embed.fields.len(), 1);
    assert_eq!(v.embed.fields[0].name, "Now Playing");
    assert!(v.embed.footer.is_none());
    assert!(v.controls.first_disabled && v.controls.last_disabled);
}
