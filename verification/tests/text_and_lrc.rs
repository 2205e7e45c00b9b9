use spotify_lyrics_tui::lrc::{is_metadata_line, parse_plain_line, parse_sync_line};
use spotify_lyrics_tui::text::{clock_label, split_lines, trim};

#[test]
fn trim_removes_unicode_white_space_at_both_ends() {
    assert_eq!(trim("  \t hello world \u{3000}\r"), "hello world");
    assert_eq!(trim("   "), "");
    assert_eq!(trim("a b"), "a b");
}

#[test]
fn split_lines_handles_crlf_and_final_newline() {
    assert_eq!(split_lines("a\r\nb\nc"), vec!["a", "b", "c"]);
    assert_eq!(split_lines("a\nb\n"), vec!["a", "b"]);
    assert_eq!(split_lines("a\n\nb"), vec!["a", "", "b"]);
    assert_eq!(split_lines("a\r"), vec!["a\r"]);
    assert!(split_lines("").is_empty());
    assert_eq!(split_lines("\n"), vec![""]);
}

#[test]
fn clock_label_pads_minutes_and_seconds() {
    assert_eq!(clock_label(0), "00:00");
    assert_eq!(clock_label(65), "01:05");
    assert_eq!(clock_label(6039), "100:39");
}

#[test]
fn metadata_tags_are_recognised() {
    assert!(is_metadata_line("[ar: Some Artist]"));
    assert!(is_metadata_line("  [ti:x]  "));
    assert!(!is_metadata_line("[00:12.34]"));
    assert!(!is_metadata_line("[00:12.34] hello"));
    assert!(!is_metadata_line("[]"));
    assert!(!is_metadata_line("hello]"));
}

#[test]
fn sync_line_gives_time_and_trimmed_text() {
    assert_eq!(parse_sync_line("  [01:02.03]  hello  "), Some((62_030, String::from("hello"))));
    assert_eq!(parse_sync_line("[00:00.00]"), Some((0, String::new())));
    assert_eq!(parse_sync_line("[99:99.99]x"), Some((99 * 60_000 + 99_000 + 990, String::from("x"))));
}

#[test]
fn sync_line_without_stamp_or_as_tag_gives_nothing() {
    assert_eq!(parse_sync_line("hello"), None);
    assert_eq!(parse_sync_line("[1:02.03] hello"), None);
    assert_eq!(parse_sync_line("[01:02:03] hello"), None);
    assert_eq!(parse_sync_line("[00:01.00] a]"), None);
    assert_eq!(parse_sync_line("[length: 03:20]"), None);
}

#[test]
fn plain_line_is_trimmed_and_tags_dropped() {
    assert_eq!(parse_plain_line("  hello  "), Some(String::from("hello")));
    assert_eq!(parse_plain_line("[by: someone]"), None);
    assert_eq!(parse_plain_line(""), Some(String::new()));
}
