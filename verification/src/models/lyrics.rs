//! Lyrics of a track, either time-stamped line by line or plain.

use vstd::prelude::*;
use crate::models::track::Track;
use crate::text::string_views;

verus! {

/// One time-stamped line of lyrics.
#[derive(Debug)]
pub struct SyncLine {
    /// When the line starts, in milliseconds from the start of the track.
    pub start_time: u64,
    pub text: String,
}

/// The start times and texts of a sequence of time-stamped lines.
pub open spec fn sync_views(v: Seq<SyncLine>) -> Seq<(int, Seq<char>)> {
    v.map_values(|l: SyncLine| (l.start_time as int, l.text@))
}

/// The lines of a track's lyrics.
#[derive(Debug)]
pub enum LyricsContent {
    Synced(Vec<SyncLine>),
    Unsynced(Vec<String>),
}

/// The texts of the lines, without their times.
pub open spec fn content_texts(c: LyricsContent) -> Seq<Seq<char>> {
    match c {
        LyricsContent::Synced(v) => sync_views(v@).map_values(|e: (int, Seq<char>)| e.1),
        LyricsContent::Unsynced(v) => string_views(v@),
    }
}

/// How many lines the content has.
pub open spec fn content_len(c: LyricsContent) -> nat {
    match c {
        LyricsContent::Synced(v) => v@.len(),
        LyricsContent::Unsynced(v) => v@.len(),
    }
}

/// A track together with its lyrics.
#[derive(Debug)]
pub struct Lyrics {
    pub track: Track,
    pub content: LyricsContent,
}

impl Lyrics {
    /// The lyrics `content` of `track`.
    pub fn new(track: Track, content: LyricsContent) -> (r: Lyrics)
        ensures
            r.track == track,
            r.content == content,
    {
        Lyrics { track, content }
    }

    /// The number of lines.
    pub fn len(&self) -> (r: usize)
        ensures
            r == content_len(self.content),
    {
        match &self.content {
            LyricsContent::Synced(sync_lines) => sync_lines.len(),
            LyricsContent::Unsynced(lines) => lines.len(),
        }
    }

    /// The texts of all lines, in order, without their times.
    pub fn unsynced_lines(&self) -> (r: Vec<String>)
        ensures
            string_views(r@) == content_texts(self.content),
    {
        let mut r: Vec<String> = Vec::new();
        match &self.content {
            LyricsContent::Synced(sync_lines) => {
                let mut i: usize = 0;
                while i < sync_lines.len()
                    invariant
                        i <= sync_lines@.len(),
                        string_views(r@) =~= sync_views(sync_lines@).take(i as int).map_values(
                            |e: (int, Seq<char>)| e.1,
                        ),
                    decreases sync_lines@.len() - i,
                {
                    let ghost before = r@;
                    r.push(sync_lines[i].text.clone());
                    assert(r@ == before.push(r@.last()));
                    assert(string_views(r@) =~= string_views(before).push(sync_lines@[i as int].text@));
                    assert(sync_views(sync_lines@).take(i + 1) =~= sync_views(sync_lines@).take(
                        i as int,
                    ).push((sync_lines@[i as int].start_time as int, sync_lines@[i as int].text@)));
                    i = i + 1;
                }
            },
            LyricsContent::Unsynced(lines) => {
                let mut i: usize = 0;
                while i < lines.len()
                    invariant
                        i <= lines@.len(),
                        string_views(r@) =~= string_views(lines@).take(i as int),
                    decreases lines@.len() - i,
                {
                    let ghost before = r@;
                    r.push(lines[i].clone());
                    assert(r@ == before.push(r@.last()));
                    assert(string_views(r@) =~= string_views(before).push(lines@[i as int]@));
                    assert(string_views(lines@).take(i + 1) =~= string_views(lines@).take(
                        i as int,
                    ).push(lines@[i as int]@));
                    i = i + 1;
                }
            },
        }
        proof {
            match &self.content {
                LyricsContent::Synced(v) => {
                    assert(sync_views(v@).take(v@.len() as int) =~= sync_views(v@));
                },
                LyricsContent::Unsynced(v) => {
                    assert(string_views(v@).take(v@.len() as int) =~= string_views(v@));
                },
            }
        }
        r
    }
}

} // verus!
