//! Turning the raw lyrics text of a lyrics service into romanized lyrics.

use vstd::prelude::*;
use crate::lrc::{plain_entry, plain_entry_of, sync_entry, sync_entry_of};
use crate::models::lyrics::{sync_views, LyricsContent, SyncLine};
use crate::models::track::Track;
use crate::text::{chars_of, char_views, lines_of, lines_of_chars, push_char, string_of, string_views};

verus! {

/// The romaji transcription that `kakasi::convert` gives of a text.
pub uninterp spec fn kakasi_romaji(text: Seq<char>) -> Seq<char>;

/// Transcribes Japanese text to romaji: the `romaji` field of what
/// `kakasi::convert` returns. Its dictionary is built into the crate, so the
/// result depends on the text alone; what it is, is left to that name.
#[verifier::external_body]
fn romanize(text: &str) -> (r: String)
    ensures
        r@ == kakasi_romaji(text@),
{
    kakasi::convert(text).romaji
}

/// The entries that a sequence of lines of time-stamped lyrics contributes,
/// in order.
pub open spec fn sync_entries(lines: Seq<Seq<char>>) -> Seq<(int, Seq<char>)>
    decreases lines.len(),
{
    if lines.len() == 0 {
        Seq::empty()
    } else {
        let rest = sync_entries(lines.drop_last());
        match sync_entry(lines.last()) {
            Some(e) => rest.push(e),
            None => rest,
        }
    }
}

/// The texts that a sequence of lines of plain lyrics contributes, in order.
pub open spec fn plain_entries(lines: Seq<Seq<char>>) -> Seq<Seq<char>>
    decreases lines.len(),
{
    if lines.len() == 0 {
        Seq::empty()
    } else {
        let rest = plain_entries(lines.drop_last());
        match plain_entry(lines.last()) {
            Some(t) => rest.push(t),
            None => rest,
        }
    }
}

/// The placeholder text of the line that opens lyrics whose first line
/// starts after the beginning of the track.
pub open spec fn lead_text() -> Seq<char> {
    seq!['.', '.', '.']
}

/// The lines, opened by a placeholder line at time zero unless the first line
/// already starts at time zero.
pub open spec fn with_lead(lines: Seq<(int, Seq<char>)>) -> Seq<(int, Seq<char>)> {
    if lines.len() == 0 || lines[0].0 > 0 {
        seq![(0int, lead_text())] + lines
    } else {
        lines
    }
}

/// The time-stamped lyrics that the raw LRC text `raw` gives: its time-stamped
/// lines, their texts romanized, opened at time zero.
pub open spec fn synced_lyrics(raw: Seq<char>) -> Seq<(int, Seq<char>)> {
    with_lead(
        sync_entries(lines_of(raw)).map_values(|e: (int, Seq<char>)| (e.0, kakasi_romaji(e.1))),
    )
}

/// The plain lyrics that the raw text `raw` gives: its lines other than
/// metadata tags, trimmed and romanized.
pub open spec fn plain_lyrics(raw: Seq<char>) -> Seq<Seq<char>> {
    plain_entries(lines_of(raw)).map_values(|t: Seq<char>| kakasi_romaji(t))
}

/// Opens `lines` with a placeholder line `...` at time zero, unless its first
/// line already starts at time zero.
pub fn with_leading_line(lines: &mut Vec<SyncLine>)
    ensures
        sync_views(final(lines)@) == with_lead(sync_views(old(lines)@)),
{
    if lines.len() == 0 || lines[0].start_time > 0 {
        let mut text = String::new();
        push_char(&mut text, '.');
        push_char(&mut text, '.');
        push_char(&mut text, '.');
        assert(text@ =~= lead_text());
        let ghost before = lines@;
        lines.insert(0, SyncLine { start_time: 0, text });
        assert(lines@ =~= before.insert(0, lines@[0]));
        assert(lines@[0].text@ == lead_text());
        assert(sync_views(lines@) =~= seq![(0int, lead_text())] + sync_views(before));
    }
}

/// The lyrics that the raw text of a lyrics service gives: with `is_sync`,
/// the LRC text's time-stamped lines; otherwise its plain lines. Texts are
/// romanized.
pub fn process_lyrics(raw: &str, is_sync: bool) -> (r: LyricsContent)
    ensures
        is_sync ==> (r matches LyricsContent::Synced(v) && sync_views(v@) == synced_lyrics(raw@)),
        !is_sync ==> (r matches LyricsContent::Unsynced(v) && string_views(v@) == plain_lyrics(
            raw@,
        )),
{
    let chars = chars_of(raw);
    let lines = lines_of_chars(&chars);
    let ghost ls = char_views(lines@);
    if is_sync {
        let mut out: Vec<SyncLine> = Vec::new();
        let mut i: usize = 0;
        while i < lines.len()
            invariant
                i <= lines@.len(),
                ls == char_views(lines@),
                ls == lines_of(raw@),
                sync_views(out@) == sync_entries(ls.take(i as int)).map_values(
                    |e: (int, Seq<char>)| (e.0, kakasi_romaji(e.1)),
                ),
            decreases lines@.len() - i,
        {
            assert(ls.take(i + 1).drop_last() =~= ls.take(i as int));
            assert(ls.take(i + 1).last() == lines@[i as int]@);
            let ghost before = out@;
            match sync_entry_of(&lines[i]) {
                Some((ms, text)) => {
                    let s = string_of(&text, 0, text.len());
                    assert(text@.subrange(0, text@.len() as int) =~= text@);
                    let romaji = romanize(s.as_str());
                    out.push(SyncLine { start_time: ms, text: romaji });
                    assert(sync_views(out@) =~= sync_views(before).push((ms as int, romaji@)));
                },
                None => {},
            }
            i = i + 1;
        }
        assert(ls.take(lines@.len() as int) =~= ls);
        with_leading_line(&mut out);
        LyricsContent::Synced(out)
    } else {
        let mut out: Vec<String> = Vec::new();
        let mut i: usize = 0;
        while i < lines.len()
            invariant
                i <= lines@.len(),
                ls == char_views(lines@),
                ls == lines_of(raw@),
                string_views(out@) == plain_entries(ls.take(i as int)).map_values(
                    |t: Seq<char>| kakasi_romaji(t),
                ),
            decreases lines@.len() - i,
        {
            assert(ls.take(i + 1).drop_last() =~= ls.take(i as int));
            assert(ls.take(i + 1).last() == lines@[i as int]@);
            let ghost before = out@;
            match plain_entry_of(&lines[i]) {
                Some(t) => {
                    let s = string_of(&t, 0, t.len());
                    assert(t@.subrange(0, t@.len() as int) =~= t@);
                    let romaji = romanize(s.as_str());
                    out.push(romaji);
                    assert(string_views(out@) =~= string_views(before).push(romaji@));
                },
                None => {},
            }
            i = i + 1;
        }
        assert(ls.take(lines@.len() as int) =~= ls);
        LyricsContent::Unsynced(out)
    }
}


/// Why no lyrics could be had for a track.
#[derive(Debug)]
pub enum LyricsError {
    /// The service knows the track but has neither synced nor plain lyrics.
    NotFound { title: String, artist: String },
}

/// The message for lyrics not found for `title` by `artist`.
pub open spec fn not_found_message(title: Seq<char>, artist: Seq<char>) -> Seq<char> {
    "no lyrics found for '"@ + title + "' by '"@ + artist + "'"@
}

impl LyricsError {
    /// The error as a message for the user.
    pub fn message(&self) -> (r: String)
        ensures
            self matches LyricsError::NotFound { title, artist } ==> r@ == not_found_message(
                title@,
                artist@,
            ),
    {
        match self {
            LyricsError::NotFound { title, artist } => {
                let mut r = String::from_str("no lyrics found for '");
                r.append(title.as_str());
                r.append("' by '");
                r.append(artist.as_str());
                r.append("'");
                r
            },
        }
    }
}

/// The lyrics of `track` from what the lyrics service answered: its synced
/// lyrics where it has them, else its plain lyrics, else the error that none
/// were found.
pub fn lyrics_from_response(track: &Track, synced: Option<String>, plain: Option<String>) -> (r:
    Result<LyricsContent, LyricsError>)
    ensures
        synced matches Some(raw) ==> (r matches Ok(LyricsContent::Synced(v)) && sync_views(v@)
            == synced_lyrics(raw@)),
        synced is None && plain is Some ==> (r matches Ok(LyricsContent::Unsynced(v))
            && string_views(v@) == plain_lyrics(plain->0@)),
        synced is None && plain is None ==> (r matches Err(LyricsError::NotFound { title, artist })
            && title@ == track.title@ && artist@ == track.artist@),
{
    if let Some(raw) = synced {
        Ok(process_lyrics(raw.as_str(), true))
    } else if let Some(raw) = plain {
        Ok(process_lyrics(raw.as_str(), false))
    } else {
        Err(LyricsError::NotFound { title: track.title.clone(), artist: track.artist.clone() })
    }
}

} // verus!
