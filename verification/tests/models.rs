use spotify_lyrics_tui::models::playback_status::PlaybackStatus;
use spotify_lyrics_tui::models::track::Track;

#[test]
fn playback_codes_map_to_statuses() {
    assert_eq!(PlaybackStatus::from_code(0), PlaybackStatus::Closed);
    assert_eq!(PlaybackStatus::from_code(1), PlaybackStatus::Opened);
    assert_eq!(PlaybackStatus::from_code(2), PlaybackStatus::Changing);
    assert_eq!(PlaybackStatus::from_code(3), PlaybackStatus::Stopped);
    assert_eq!(PlaybackStatus::from_code(4), PlaybackStatus::Playing);
    assert_eq!(PlaybackStatus::from_code(5), PlaybackStatus::Paused);
    assert_eq!(PlaybackStatus::from_code(6), PlaybackStatus::Closed);
    assert_eq!(PlaybackStatus::from_code(-1), PlaybackStatus::Closed);
    assert_eq!(PlaybackStatus::default(), PlaybackStatus::Closed);
}

#[test]
fn playback_status_names() {
    assert_eq!(PlaybackStatus::Playing.name(), "Playing");
    assert_eq!(PlaybackStatus::Closed.name(), "Closed");
    assert_eq!(PlaybackStatus::Paused.name(), "Paused");
}

#[test]
fn track_label_and_equality() {
    let t = Track::new(String::from("Artist"), String::from("Title"));
    assert_eq!(t.label(), "Artist - Title");
    assert_eq!(t.clone(), t);
    assert!(t != Track::new(String::from("Artist"), String::from("Other")));
    assert_eq!(Track::default(), Track::new(String::new(), String::new()));
}
