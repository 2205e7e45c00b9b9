use spotify_lyrics_tui::lyrics::{lyrics_from_response, process_lyrics, with_leading_line, LyricsError};
use spotify_lyrics_tui::models::lyrics::{Lyrics, LyricsContent, SyncLine};
use spotify_lyrics_tui::models::track::Track;

fn synced(content: &LyricsContent) -> Vec<(u64, String)> {
    match content {
        LyricsContent::Synced(v) => v.iter().map(|l| (l.start_time, l.text.clone())).collect(),
        LyricsContent::Unsynced(_) => panic!("expected synced lyrics"),
    }
}

fn plain(content: &LyricsContent) -> Vec<String> {
    match content {
        LyricsContent::Unsynced(v) => v.clone(),
        LyricsContent::Synced(_) => panic!("expected plain lyrics"),
    }
}

#[test]
fn synced_lyrics_are_romanized_and_open_at_zero() {
    let raw = "[ar: someone]\n[00:05.50] こんにちは\n\n[00:07.00] abc\n";
    let lines = synced(&process_lyrics(raw, true));
    assert_eq!(
        lines,
        vec![(0, String::from("...")), (5_500, String::from("konnichiha")), (7_000, String::from("abc"))]
    );
}

#[test]
fn synced_lyrics_starting_at_zero_get_no_placeholder() {
    let lines = synced(&process_lyrics("[00:00.00] abc\n[00:01.00] def", true));
    assert_eq!(lines, vec![(0, String::from("abc")), (1_000, String::from("def"))]);
}

#[test]
fn synced_lyrics_of_nothing_are_the_placeholder() {
    assert_eq!(synced(&process_lyrics("", true)), vec![(0, String::from("..."))]);
}

#[test]
fn plain_lyrics_keep_every_line_but_tags() {
    let lines = plain(&process_lyrics("[ti: x]\n こんにちは \n\nabc", false));
    assert_eq!(lines, vec![String::from("konnichiha"), String::new(), String::from("abc")]);
}

#[test]
fn leading_line_is_added_only_when_needed() {
    let mut v = vec![SyncLine { start_time: 10, text: String::from("a") }];
    with_leading_line(&mut v);
    assert_eq!(v.len(), 2);
    assert_eq!(v[0].start_time, 0);
    assert_eq!(v[0].text, "...");
    with_leading_line(&mut v);
    assert_eq!(v.len(), 2);
}

#[test]
fn response_prefers_synced_then_plain() {
    let track = Track::new(String::from("A"), String::from("T"));
    let r = lyrics_from_response(&track, Some(String::from("[00:01.00] x")), Some(String::from("y")));
    assert_eq!(synced(&r.unwrap()), vec![(0, String::from("...")), (1_000, String::from("x"))]);
    let r = lyrics_from_response(&track, None, Some(String::from("y")));
    assert_eq!(plain(&r.unwrap()), vec![String::from("y")]);
}

#[test]
fn response_without_lyrics_is_not_found() {
    let track = Track::new(String::from("Artist"), String::from("Title"));
    match lyrics_from_response(&track, None, None) {
        Err(e) => {
            assert_eq!(e.message(), "no lyrics found for 'Title' by 'Artist'");
            match e {
                LyricsError::NotFound { title, artist } => {
                    assert_eq!(title, "Title");
                    assert_eq!(artist, "Artist");
                }
            }
        }
        Ok(_) => panic!("expected an error"),
    }
}

#[test]
fn lyrics_count_and_texts() {
    let track = Track::new(String::from("A"), String::from("T"));
    let l = Lyrics::new(
        track,
        LyricsContent::Synced(vec![
            SyncLine { start_time: 0, text: String::from("one") },
            SyncLine { start_time: 5, text: String::from("two") },
        ]),
    );
    assert_eq!(l.len(), 2);
    assert_eq!(l.unsynced_lines(), vec![String::from("one"), String::from("two")]);
    let l2 = Lyrics::new(Track::default(), LyricsContent::Unsynced(vec![String::from("x")]));
    assert_eq!(l2.len(), 1);
    assert_eq!(l2.unsynced_lines(), vec![String::from("x")]);
}
