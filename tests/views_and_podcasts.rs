use std::cmp::Ordering;

use rradio_sync::connection::ConnectionState;
use rradio_sync::fast_eq_rc::FastEqRc;
use rradio_sync::player_state::{CurrentStation, PlayerState, PlayerStateDiff, Track, TrackTags};
use rradio_sync::player_view::{track_label, CurrentTrackText};
use rradio_sync::podcasts::{add_podcast, compare_titles, Podcast};
use rradio_sync::update_from_diff::UpdateFromDiff;

fn track(title: Option<&str>, artist: Option<&str>, url: &str) -> Track {
    Track {
        title: title.map(String::from),
        album: Some(String::from("Album")),
        artist: artist.map(String::from),
        url: String::from(url),
        is_notification: false,
    }
}

fn tags(title: Option<&str>, genre: Option<&str>) -> TrackTags {
    TrackTags {
        title: title.map(String::from),
        organisation: None,
        artist: None,
        album: None,
        genre: genre.map(String::from),
        image: Some(String::from("http://example.com/art.png")),
        comment: None,
    }
}

fn playing(tracks: Vec<Track>) -> CurrentStation {
    CurrentStation::PlayingStation {
        index: Some(String::from("07")),
        source_type: String::from("UrlList"),
        title: None,
        tracks: Some(tracks),
    }
}

#[test]
fn connection_banner_messages() {
    assert_eq!(ConnectionState::Connecting.banner(), Some(String::from("Connecting...")));
    assert_eq!(ConnectionState::Connected.banner(), None);
    assert_eq!(ConnectionState::Disconnected.banner(), Some(String::from("RRadio has terminated")));
    assert_eq!(
        ConnectionState::ConnectionError(String::from("Failed to open websocket")).banner(),
        Some(String::from("Failed to open websocket"))
    );
}

#[test]
fn track_labels() {
    assert_eq!(track_label(&track(Some("Song"), Some("Band"), "http://x/y.mp3")), "Song - Band");
    assert_eq!(track_label(&track(Some("Song"), None, "http://x/y.mp3")), "Song");
    assert_eq!(track_label(&track(None, Some("Band"), "http://x/My%20Song.mp3")), "My Song.mp3");
    assert_eq!(track_label(&track(None, None, "http://x/bad%FF.mp3")), "bad%FF.mp3");
    assert_eq!(track_label(&track(None, None, "no-slash")), "no-slash");
    assert_eq!(track_label(&track(None, None, "http://x/")), "");
    let mut notification = track(Some("Song"), None, "http://x/y.mp3");
    notification.is_notification = true;
    assert_eq!(track_label(&notification), "<Notification>");
}

#[test]
fn current_track_text_prefers_tags() {
    let t = track(Some("Entry title"), Some("Entry artist"), "http://x/y.mp3");
    let text = CurrentTrackText::new(&t, &Some(tags(Some("Tag title"), Some("Jazz"))));
    assert_eq!(text.title, "Tag title");
    assert_eq!(text.artist, "Entry artist");
    assert_eq!(text.album, "Album");
    assert_eq!(text.genre, "Jazz");
    assert_eq!(text.image, "http://example.com/art.png");
    let text = CurrentTrackText::new(&t, &None);
    assert_eq!(text.title, "Entry title");
    assert_eq!(text.genre, "");
    assert_eq!(text.image, "");
}

#[test]
fn current_track_and_title() {
    let mut state = PlayerState::default();
    assert!(state.current_track().is_none());
    assert_eq!(state.current_track_title(), "");
    state.update_from_diff(PlayerStateDiff {
        current_station: Some(playing(vec![
            track(Some("One"), None, "http://x/1.mp3"),
            track(Some("Two"), None, "http://x/2.mp3"),
        ])),
        current_track_index: Some(1),
        ..PlayerStateDiff::default()
    });
    assert_eq!(state.current_track().and_then(|t| t.title.clone()), Some(String::from("Two")));
    assert_eq!(state.current_track_title(), "Two");
    state.current_track_tags = FastEqRc::new(Some(tags(Some("Tagged"), None)));
    assert_eq!(state.current_track_title(), "Tagged");
    state.current_track_index = 5;
    assert!(state.current_track().is_none());
}

#[test]
fn station_legend_and_title() {
    assert_eq!(CurrentStation::NoStation.legend(), "No Station");
    assert_eq!(
        CurrentStation::FailedToPlayStation { error: String::from("gone") }.legend(),
        "Failed to Play Station"
    );
    let station = playing(Vec::new());
    assert_eq!(station.legend(), "Station 07");
    assert_eq!(station.display_title(), Some(String::from("UrlList")));
    let unnamed = CurrentStation::PlayingStation {
        index: None,
        source_type: String::from("Usb"),
        title: Some(String::from("Stick")),
        tracks: None,
    };
    assert_eq!(unnamed.legend(), "Station");
    assert_eq!(unnamed.display_title(), Some(String::from("Stick")));
    assert_eq!(CurrentStation::NoStation.display_title(), None);
}

#[test]
fn titles_compare_ignoring_case() {
    assert_eq!(compare_titles("abc", "ABD"), Ordering::Less);
    assert_eq!(compare_titles("Zebra", "apple"), Ordering::Greater);
    assert_eq!(compare_titles("Same", "sAME"), Ordering::Equal);
    assert_eq!(compare_titles("ab", "abc"), Ordering::Less);
    assert_eq!(compare_titles("", ""), Ordering::Equal);
}

#[test]
fn add_podcast_keeps_title_order() {
    let mut podcasts = Vec::new();
    let p = |title: &str, url: &str| Podcast { title: String::from(title), url: String::from(url) };
    assert_eq!(add_podcast(&mut podcasts, p("Middle", "m")), 0);
    assert_eq!(add_podcast(&mut podcasts, p("alpha", "a")), 0);
    assert_eq!(add_podcast(&mut podcasts, p("Zulu", "z")), 2);
    assert_eq!(add_podcast(&mut podcasts, p("beta", "b")), 1);
    let titles: Vec<&str> = podcasts.iter().map(|p| p.title.as_str()).collect();
    assert_eq!(titles, vec!["alpha", "beta", "Middle", "Zulu"]);
}

#[test]
fn add_podcast_keeps_equal_titles_in_order() {
    let mut podcasts = Vec::new();
    let p = |title: &str, url: &str| Podcast { title: String::from(title), url: String::from(url) };
    add_podcast(&mut podcasts, p("News", "first"));
    add_podcast(&mut podcasts, p("Arts", "a"));
    assert_eq!(add_podcast(&mut podcasts, p("NEWS", "second")), 2);
    assert_eq!(add_podcast(&mut podcasts, p("news", "third")), 3);
    let urls: Vec<&str> = podcasts.iter().map(|p| p.url.as_str()).collect();
    assert_eq!(urls, vec!["a", "first", "second", "third"]);
}
