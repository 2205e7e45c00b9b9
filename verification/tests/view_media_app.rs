use spotify_lyrics_tui::app::{Action, App, Effect, LyricsState};
use spotify_lyrics_tui::media::{position_millis, position_seconds, select_session, MediaTracker};
use spotify_lyrics_tui::models::lyrics::{Lyrics, LyricsContent, SyncLine};
use spotify_lyrics_tui::models::playback_status::PlaybackStatus;
use spotify_lyrics_tui::models::track::Track;
use spotify_lyrics_tui::widgets::{LyricsView, Tone};

fn lines(times: &[u64]) -> Vec<SyncLine> {
    times.iter().enumerate().map(|(i, t)| SyncLine { start_time: *t, text: format!("l{i}") }).collect()
}

fn lyrics_of(times: &[u64]) -> Lyrics {
    Lyrics::new(Track::default(), LyricsContent::Synced(lines(times)))
}

#[test]
fn active_line_is_the_last_begun_one_second_ahead() {
    let l = lyrics_of(&[0, 5_000, 10_000]);
    let v = lines(&[0, 5_000, 10_000]);
    assert_eq!(LyricsView::new(&l, 0).active_line_index(&v), 0);
    assert_eq!(LyricsView::new(&l, 3_999).active_line_index(&v), 0);
    assert_eq!(LyricsView::new(&l, 4_000).active_line_index(&v), 1);
    assert_eq!(LyricsView::new(&l, 9_500).active_line_index(&v), 2);
    assert_eq!(LyricsView::new(&l, 100_000).active_line_index(&v), 2);
    let late = lines(&[5_000]);
    assert_eq!(LyricsView::new(&l, 0).active_line_index(&late), 0);
    assert_eq!(LyricsView::new(&l, 0).active_line_index(&Vec::new()), 0);
}

#[test]
fn view_window_centres_the_active_line() {
    let l = lyrics_of(&[]);
    let view = LyricsView::new(&l, 0);
    assert_eq!(view.lines_in_view(100, 50, 10), (45, 55));
    assert_eq!(view.lines_in_view(100, 2, 10), (0, 10));
    assert_eq!(view.lines_in_view(100, 98, 10), (90, 100));
    assert_eq!(view.lines_in_view(5, 3, 10), (0, 5));
    assert_eq!(view.lines_in_view(5, 3, 0), (3, 3));
}

#[test]
fn synced_rows_mark_and_stamp_lines() {
    let l = lyrics_of(&[0, 65_000, 130_000]);
    let v = lines(&[0, 65_000, 130_000]);
    let rows = LyricsView::new(&l, 64_500).synced_rows(&v, 10);
    assert_eq!(rows.len(), 3);
    assert_eq!(rows[0].tone, Tone::Past);
    assert_eq!(rows[1].tone, Tone::Active);
    assert_eq!(rows[2].tone, Tone::Upcoming);
    assert_eq!(rows[1].text, "l1");
    assert_eq!(rows[1].timestamp, "[01:05] ");
    assert_eq!(rows[2].timestamp, "[02:10] ");
}

#[test]
fn spotify_session_is_the_first_matching_one() {
    let ids = vec![
        Some(String::from("Chrome")),
        None,
        Some(String::from("Spotify.exe")),
        Some(String::from("SpotifyAB.Spotify")),
    ];
    assert_eq!(select_session(&ids), Some(2));
    assert_eq!(select_session(&vec![Some(String::from("spotify"))]), None);
    assert_eq!(select_session(&Vec::new()), None);
}

#[test]
fn timeline_ticks_convert_toward_zero() {
    assert_eq!(position_millis(123_456_789), 12_345);
    assert_eq!(position_millis(9_999), 0);
    assert_eq!(position_millis(-10_000), u64::MAX);
    assert_eq!(position_millis(-9_999), 0);
    assert_eq!(position_seconds(25_000_000), 2);
    assert_eq!(position_seconds(-25_000_000), -2);
}

#[test]
fn tracker_reports_changes_once() {
    let mut m = MediaTracker::new();
    let t = Track::new(String::from("A"), String::from("T"));
    match m.observe_track(t.clone()) {
        Some(Action::TrackChanged(x)) => assert_eq!(x, t),
        _ => panic!("expected a track change"),
    }
    assert!(m.observe_track(t.clone()).is_none());
    assert!(m.observe_track(Track::default()).is_some());
    assert!(m.observe_status(PlaybackStatus::Playing));
    assert!(!m.observe_status(PlaybackStatus::Playing));
    assert!(matches!(m.observe_position(5), Some(Action::UpdatePlaybackPosition(5))));
    assert!(m.observe_position(5).is_none());
    assert!(MediaTracker::new().observe_position(0).is_none());
}

#[test]
fn keys_quit_and_toggle_auto_refresh() {
    let mut app = App::new();
    assert!(matches!(app.on_key('q', false), Some(Action::Quit)));
    assert!(app.on_key('t', false).is_none());
    assert!(!app.auto_refresh);
    assert!(app.on_key('t', true).is_none());
    assert!(app.auto_refresh);
    assert!(app.on_key('t', true).is_none());
    assert!(!app.auto_refresh);
    app.current_track = Some(Track::new(String::from("A"), String::from("T")));
    match app.on_key('t', true) {
        Some(Action::FetchLyrics(t)) => assert_eq!(t.title, "T"),
        _ => panic!("expected a fetch"),
    }
    assert!(app.on_key('x', true).is_none());
}

#[test]
fn actions_drive_the_lyrics_state() {
    let mut app = App::default();
    let t = Track::new(String::from("A"), String::from("T"));
    assert!(matches!(app.on_action(Action::TrackChanged(t.clone())), Effect::Nothing));
    assert_eq!(app.current_track, Some(t.clone()));
    app.auto_refresh = true;
    assert!(matches!(app.on_action(Action::TrackChanged(t.clone())), Effect::Send(Action::FetchLyrics(_))));
    assert!(matches!(app.on_action(Action::FetchLyrics(t.clone())), Effect::Fetch(_)));
    assert!(matches!(app.lyrics_state, LyricsState::Loading));
    app.on_action(Action::LyricsFetched(Lyrics::new(t.clone(), LyricsContent::Unsynced(vec![]))));
    assert!(matches!(app.lyrics_state, LyricsState::Loaded(_)));
    app.on_action(Action::LyricsFetchError(String::from("boom")));
    assert!(matches!(&app.lyrics_state, LyricsState::Error(e) if e == "boom"));
    app.on_action(Action::PlaybackStatusChanged(PlaybackStatus::Playing));
    assert_eq!(app.playback_status, PlaybackStatus::Playing);
    app.on_action(Action::UpdatePlaybackPosition(61_999));
    assert_eq!(app.position_label(), "01:01");
    assert!(matches!(app.on_action(Action::Quit), Effect::Exit));
}

#[test]
fn ticks_advance_position_only_while_playing() {
    let mut app = App::new();
    app.on_tick(50);
    assert_eq!(app.tick, 1);
    assert_eq!(app.track_position, 0);
    app.playback_status = PlaybackStatus::Playing;
    app.on_tick(50);
    assert_eq!(app.track_position, 50);
    app.tick = usize::MAX;
    app.on_tick(50);
    assert_eq!(app.tick, 0);
    assert_eq!(app.spinner(), '\u{280b}');
    app.tick = 13;
    assert_eq!(app.spinner(), '\u{2838}');
}
