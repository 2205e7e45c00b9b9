//! What the lyrics view shows: which line is being sung, which lines fit on
//! the screen around it, and how each of them is marked.

use vstd::prelude::*;
use crate::models::lyrics::{sync_views, Lyrics, SyncLine};
use crate::text::{clock, push_char, push_padded2};

verus! {

/// How far ahead of the playback position a line counts as begun, in
/// milliseconds.
pub const LEAD_MILLIS: u64 = 1000;

/// `a - b`, or zero where `b` exceeds `a` (`saturating_sub`).
pub open spec fn sat_sub(a: int, b: int) -> int {
    if a > b {
        a - b
    } else {
        0
    }
}

/// The smaller of two numbers.
pub open spec fn min(a: int, b: int) -> int {
    if a <= b {
        a
    } else {
        b
    }
}

/// The index of the first line that starts after `limit`, or the number of
/// lines where none does.
pub open spec fn first_after(lines: Seq<(int, Seq<char>)>, limit: int) -> int
    decreases lines.len(),
{
    if lines.len() == 0 {
        0
    } else if lines[0].0 > limit {
        0
    } else {
        1 + first_after(lines.drop_first(), limit)
    }
}

/// The line being sung at playback position `pos` (milliseconds): the one
/// before the first line that starts more than a second after `pos`, or the
/// last line where there is none; the first line where the first line itself
/// starts later.
pub open spec fn active_index(lines: Seq<(int, Seq<char>)>, pos: int) -> int {
    sat_sub(first_after(lines, pos + LEAD_MILLIS), 1)
}

/// The first and the end index of the lines shown in a view `height` lines
/// high: the active line as near the middle as the lines allow, and the view
/// as full as they allow.
pub open spec fn view_window(total: int, active: int, height: int) -> (int, int) {
    let start = min(sat_sub(active, height / 2), sat_sub(total, height));
    (start, min(start + height, total))
}

/// How a line is marked relative to the line being sung.
#[derive(Debug, Clone, Copy, PartialEq, Eq, Structural)]
pub enum Tone {
    Past,
    Active,
    Upcoming,
}

/// The mark of line `i` when line `active` is being sung.
pub open spec fn tone_of(i: int, active: int) -> Tone {
    if i == active {
        Tone::Active
    } else if i < active {
        Tone::Past
    } else {
        Tone::Upcoming
    }
}

/// The time column of a line starting at `millis`: `[mm:ss] `.
pub open spec fn stamp_label(millis: int) -> Seq<char> {
    seq!['['] + clock((millis / 1000) as nat) + seq![']', ' ']
}

/// Whether `row` shows line `i` of `lines` with line `active` being sung.
pub open spec fn shows_line(row: ViewRow, lines: Seq<(int, Seq<char>)>, i: int, active: int) -> bool {
    &&& row.text@ == lines[i].1
    &&& row.timestamp@ == stamp_label(lines[i].0)
    &&& row.tone == tone_of(i, active)
}

/// One line as the view shows it.
#[derive(Debug)]
pub struct ViewRow {
    pub text: String,
    pub timestamp: String,
    pub tone: Tone,
}

/// The lyrics of a track at a playback position.
pub struct LyricsView<'a> {
    pub lyrics: &'a Lyrics,
    /// The playback position, in milliseconds.
    pub playback_pos: u64,
}

proof fn lemma_first_after(lines: Seq<(int, Seq<char>)>, limit: int, i: int)
    requires
        0 <= i <= lines.len(),
        forall|k: int| 0 <= k < i ==> lines[k].0 <= limit,
        i == lines.len() || lines[i].0 > limit,
    ensures
        first_after(lines, limit) == i,
    decreases i,
{
    if i > 0 {
        assert forall|k: int| 0 <= k < i - 1 implies lines.drop_first()[k].0 <= limit by {
            assert(lines.drop_first()[k] == lines[k + 1]);
        }
        lemma_first_after(lines.drop_first(), limit, i - 1);
    }
}

fn stamp(millis: u64) -> (r: String)
    ensures
        r@ == stamp_label(millis as int),
{
    let mut r = String::new();
    push_char(&mut r, '[');
    let secs = millis / 1000;
    push_padded2(&mut r, secs / 60);
    push_char(&mut r, ':');
    push_padded2(&mut r, secs % 60);
    push_char(&mut r, ']');
    push_char(&mut r, ' ');
    assert(r@ =~= stamp_label(millis as int));
    r
}

impl<'a> LyricsView<'a> {
    /// The view of `lyrics` at `playback_pos` milliseconds.
    pub fn new(lyrics: &'a Lyrics, playback_pos: u64) -> (r: Self)
        ensures
            r.lyrics == lyrics,
            r.playback_pos == playback_pos,
    {
        LyricsView { lyrics, playback_pos }
    }

    /// The index of the line being sung.
    pub fn active_line_index(&self, lines: &Vec<SyncLine>) -> (r: usize)
        ensures
            r == active_index(sync_views(lines@), self.playback_pos as int),
            lines@.len() > 0 ==> r < lines@.len(),
    {
        let ghost views = sync_views(lines@);
        let pos = self.playback_pos;
        let mut i: usize = 0;
        while i < lines.len()
            invariant
                i <= lines@.len(),
                views == sync_views(lines@),
                pos == self.playback_pos,
                forall|k: int| 0 <= k < i ==> views[k].0 <= pos + LEAD_MILLIS,
            decreases lines@.len() - i,
        {
            let t = lines[i].start_time;
            if t > pos && t - pos > LEAD_MILLIS {
                proof {
                    lemma_first_after(views, pos + LEAD_MILLIS, i as int);
                }
                return i.saturating_sub(1);
            }
            i = i + 1;
        }
        proof {
            lemma_first_after(views, pos + LEAD_MILLIS, i as int);
        }
        lines.len().saturating_sub(1)
    }

    /// The first and the end index of the lines that a view `area_height`
    /// lines high shows, out of `total_lines`, with line `active_index`
    /// being sung.
    pub fn lines_in_view(&self, total_lines: usize, active_index: usize, area_height: u16) -> (r: (
        usize,
        usize,
    ))
        ensures
            (r.0 as int, r.1 as int) == view_window(
                total_lines as int,
                active_index as int,
                area_height as int,
            ),
            r.0 <= r.1 <= total_lines,
            r.1 - r.0 <= area_height,
            area_height > 0 && active_index < total_lines ==> r.0 <= active_index < r.1,
    {
        let area_height = area_height as usize;
        let ideal_start = active_index.saturating_sub(area_height / 2);
        let max_start = total_lines.saturating_sub(area_height);
        let start = if ideal_start <= max_start {
            ideal_start
        } else {
            max_start
        };
        let end = if start + area_height <= total_lines {
            start + area_height
        } else {
            total_lines
        };
        (start, end)
    }

    /// The time-stamped lines that a view `area_height` lines high shows:
    /// their texts, time columns and marks, in order.
    pub fn synced_rows(&self, lines: &Vec<SyncLine>, area_height: u16) -> (r: Vec<ViewRow>)
        ensures
            ({
                let v = sync_views(lines@);
                let a = active_index(v, self.playback_pos as int);
                let w = view_window(v.len() as int, a, area_height as int);
                &&& r@.len() == w.1 - w.0
                &&& forall|j: int| 0 <= j < r@.len() ==> shows_line(#[trigger] r@[j], v, w.0 + j, a)
            }),
    {
        let active = self.active_line_index(lines);
        let (start, end) = self.lines_in_view(lines.len(), active, area_height);
        let ghost v = sync_views(lines@);
        let mut rows: Vec<ViewRow> = Vec::new();
        let mut i = start;
        while i < end
            invariant
                start <= i <= end <= lines@.len(),
                v == sync_views(lines@),
                rows@.len() == i - start,
                forall|j: int|
                    0 <= j < rows@.len() ==> shows_line(#[trigger] rows@[j], v, start + j, active as int),
            decreases end - i,
        {
            let line = &lines[i];
            let tone = if i == active {
                Tone::Active
            } else if i < active {
                Tone::Past
            } else {
                Tone::Upcoming
            };
            let row = ViewRow { text: line.text.clone(), timestamp: stamp(line.start_time), tone };
            assert(v[i as int] == (lines@[i as int].start_time as int, lines@[i as int].text@));
            let ghost before = rows@;
            rows.push(row);
            assert(rows@ == before.push(rows@.last()));
            assert forall|j: int| 0 <= j < rows@.len() implies shows_line(
                #[trigger] rows@[j],
                v,
                start + j,
                active as int,
            ) by {
                if j < before.len() {
                    assert(rows@[j] == before[j]);
                }
            }
            i = i + 1;
        }
        rows
    }
}

} // verus!
