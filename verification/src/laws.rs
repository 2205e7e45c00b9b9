//! Properties that hold across the library's functions and all their inputs.

use vstd::prelude::*;
use crate::app::App;
use crate::lrc::{has_timestamp, is_metadata, plain_entry, sync_entry, timestamp_millis};
use crate::lyrics::{kakasi_romaji, plain_entries, plain_lyrics, sync_entries, synced_lyrics};
use crate::models::lyrics::{content_len, content_texts, LyricsContent};
use crate::text::{lines_of, split_lf, trim_end, trim_start, trimmed};
use crate::widgets::{active_index, first_after, view_window};
use crate::media::is_spotify;

verus! {

proof fn lemma_entries_not_negative(lines: Seq<Seq<char>>)
    ensures
        forall|k: int| 0 <= k < sync_entries(lines).len() ==> #[trigger] sync_entries(lines)[k].0 >= 0,
    decreases lines.len(),
{
    if lines.len() > 0 {
        lemma_entries_not_negative(lines.drop_last());
        let rest = sync_entries(lines.drop_last());
        match sync_entry(lines.last()) {
            Some(e) => {
                assert(e.0 >= 0);
                assert forall|k: int| 0 <= k < rest.push(e).len() implies #[trigger] rest.push(e)[k].0
                    >= 0 by {
                    if k < rest.len() {
                        assert(rest.push(e)[k] == rest[k]);
                    }
                }
            },
            None => {},
        }
    }
}

/// Time-stamped lyrics always have a line, and their first line starts at
/// the beginning of the track.
pub proof fn law_synced_lyrics_start_at_zero(raw: Seq<char>)
    ensures
        synced_lyrics(raw).len() > 0,
        synced_lyrics(raw)[0].0 == 0,
{
    let entries = sync_entries(lines_of(raw));
    lemma_entries_not_negative(lines_of(raw));
    let body = entries.map_values(|e: (int, Seq<char>)| (e.0, kakasi_romaji(e.1)));
    if body.len() > 0 {
        assert(body[0].0 == entries[0].0);
    }
}

proof fn lemma_first_after_bounded(lines: Seq<(int, Seq<char>)>, limit: int)
    ensures
        0 <= first_after(lines, limit) <= lines.len(),
    decreases lines.len(),
{
    if lines.len() > 0 {
        lemma_first_after_bounded(lines.drop_first(), limit);
    }
}

proof fn lemma_first_after_monotone(lines: Seq<(int, Seq<char>)>, a: int, b: int)
    requires
        a <= b,
    ensures
        first_after(lines, a) <= first_after(lines, b),
    decreases lines.len(),
{
    lemma_first_after_bounded(lines, a);
    lemma_first_after_bounded(lines, b);
    if lines.len() > 0 {
        lemma_first_after_monotone(lines.drop_first(), a, b);
    }
}

/// The line being sung is one of the lyrics' lines, whatever the position.
pub proof fn law_active_line_exists(lines: Seq<(int, Seq<char>)>, pos: int)
    requires
        lines.len() > 0,
    ensures
        0 <= active_index(lines, pos) < lines.len(),
{
    lemma_first_after_bounded(lines, pos + 1000);
}

/// As playback moves on, the line being sung never moves back.
pub proof fn law_active_line_moves_forward(lines: Seq<(int, Seq<char>)>, earlier: int, later: int)
    requires
        earlier <= later,
    ensures
        active_index(lines, earlier) <= active_index(lines, later),
{
    lemma_first_after_monotone(lines, earlier + 1000, later + 1000);
}

/// The texts of the lines are as many as the lines.
pub proof fn law_texts_count_lines(c: LyricsContent)
    ensures
        content_texts(c).len() == content_len(c),
{
}

/// Switching automatic fetching over twice leaves the state as it was.
pub proof fn law_toggle_twice_restores(app: App)
    ensures
        app.toggled().toggled() == app,
{
}


/// Where the lines allow it, the view puts the line being sung half a view
/// below its top: it starts `height / 2` lines above the active line and
/// shows `height` lines, whatever the height.
pub proof fn law_view_centres_active_line(total: int, active: int, height: int)
    requires
        0 <= height,
        height / 2 <= active,
        active - height / 2 + height <= total,
    ensures
        view_window(total, active, height) == (active - height / 2, active - height / 2 + height),
{
}

proof fn lemma_first_after_splits(lines: Seq<(int, Seq<char>)>, limit: int)
    ensures
        forall|k: int| 0 <= k < first_after(lines, limit) ==> #[trigger] lines[k].0 <= limit,
        first_after(lines, limit) < lines.len() ==> lines[first_after(lines, limit)].0 > limit,
    decreases lines.len(),
{
    lemma_first_after_bounded(lines, limit);
    if lines.len() > 0 && lines[0].0 <= limit {
        let rest = lines.drop_first();
        lemma_first_after_splits(rest, limit);
        assert forall|k: int| 0 <= k < first_after(lines, limit) implies #[trigger] lines[k].0
            <= limit by {
            if k > 0 {
                assert(lines[k] == rest[k - 1]);
            }
        }
        let fr = first_after(rest, limit);
        lemma_first_after_bounded(rest, limit);
        assert(first_after(lines, limit) == 1 + fr);
        if fr < rest.len() {
            assert(lines[1 + fr] == rest[fr]);
        }
    }
}

/// For lines in order of their start times, whatever their texts, the line
/// being sung at `pos` has begun by a second after `pos` (unless it is the
/// first line), and every later line starts more than a second after `pos`.
pub proof fn law_active_line_is_last_begun(lines: Seq<(int, Seq<char>)>, pos: int)
    requires
        lines.len() > 0,
        forall|i: int, j: int| 0 <= i <= j < lines.len() ==> lines[i].0 <= lines[j].0,
    ensures
        active_index(lines, pos) == 0 || lines[active_index(lines, pos)].0 <= pos + 1000,
        forall|k: int|
            active_index(lines, pos) < k < lines.len() ==> #[trigger] lines[k].0 > pos + 1000,
{
    let limit = pos + 1000;
    lemma_first_after_splits(lines, limit);
    lemma_first_after_bounded(lines, limit);
    let f = first_after(lines, limit);
    let r = active_index(lines, pos);
    if f >= 1 {
        assert(lines[f - 1].0 <= limit);
    }
    assert forall|k: int| r < k < lines.len() implies #[trigger] lines[k].0 > limit by {
        assert(k >= f);
        assert(lines[f].0 <= lines[k].0);
    }
}

/// The Spotify session is the one whose application id holds `Spotify`
/// (the seven characters S, p, o, t, i, f, y in a row) anywhere in it.
pub proof fn law_spotify_id_holds_spotify(id: Option<String>)
    ensures
        is_spotify(id) <==> (id matches Some(s) && exists|k: int|
            0 <= k && k + 7 <= s@.len() && #[trigger] s@[k] == 'S' && s@[k + 1] == 'p' && s@[k + 2]
                == 'o' && s@[k + 3] == 't' && s@[k + 4] == 'i' && s@[k + 5] == 'f' && s@[k + 6]
                == 'y'),
{
    if let Some(s) = id {
        let v = s@;
        let name = seq!['S', 'p', 'o', 't', 'i', 'f', 'y'];
        if is_spotify(id) {
            let k = choose|k: int| crate::text::occurs_at(v, crate::media::spotify_name(), k);
            assert(v.subrange(k, k + 7) == name);
            assert(v.subrange(k, k + 7)[0] == v[k]);
            assert(v.subrange(k, k + 7)[1] == v[k + 1]);
            assert(v.subrange(k, k + 7)[2] == v[k + 2]);
            assert(v.subrange(k, k + 7)[3] == v[k + 3]);
            assert(v.subrange(k, k + 7)[4] == v[k + 4]);
            assert(v.subrange(k, k + 7)[5] == v[k + 5]);
            assert(v.subrange(k, k + 7)[6] == v[k + 6]);
        }
        if exists|k: int|
            0 <= k && k + 7 <= v.len() && #[trigger] v[k] == 'S' && v[k + 1] == 'p' && v[k + 2] == 'o'
                && v[k + 3] == 't' && v[k + 4] == 'i' && v[k + 5] == 'f' && v[k + 6] == 'y' {
            let k = choose|k: int|
                0 <= k && k + 7 <= v.len() && #[trigger] v[k] == 'S' && v[k + 1] == 'p' && v[k + 2]
                    == 'o' && v[k + 3] == 't' && v[k + 4] == 'i' && v[k + 5] == 'f' && v[k + 6]
                    == 'y';
            assert(v.subrange(k, k + 7) =~= name);
            assert(crate::text::occurs_at(v, crate::media::spotify_name(), k));
        }
    }
}


proof fn lemma_split_lf_append(a: Seq<char>, b: Seq<char>)
    requires
        a.len() == 0 || a.last() == '\n',
        forall|i: int| 0 <= i < b.len() ==> b[i] != '\n',
    ensures
        split_lf(a).len() >= 1,
        split_lf(a + b) == split_lf(a).update(split_lf(a).len() - 1, b),
    decreases b.len(),
{
    if a.len() > 0 {
        assert(a.drop_last().len() < a.len());
    }
    if b.len() == 0 {
        assert(a + b =~= a);
        assert(b =~= Seq::<char>::empty());
        assert(split_lf(a).len() >= 1);
        assert(split_lf(a).last() == Seq::<char>::empty());
        assert(split_lf(a).update(split_lf(a).len() - 1, b) =~= split_lf(a));
    } else {
        let c = b.last();
        let b1 = b.drop_last();
        lemma_split_lf_append(a, b1);
        assert((a + b).drop_last() =~= a + b1);
        assert((a + b).last() == c);
        assert(b1.push(c) =~= b);
        let q = split_lf(a);
        assert(split_lf(a + b) =~= q.update(q.len() - 1, b));
    }
}

proof fn lemma_lines_of_append(a: Seq<char>, b: Seq<char>)
    requires
        a.len() == 0 || a.last() == '\n',
        b.len() > 0,
        forall|i: int| 0 <= i < b.len() ==> b[i] != '\n',
    ensures
        lines_of(a + b) == lines_of(a).push(b),
{
    lemma_split_lf_append(a, b);
    let q = split_lf(a);
    let p = split_lf(a + b);
    assert((a + b).last() == b.last());
    assert(p.drop_last() =~= q.drop_last());
    if a.len() == 0 {
        assert(q =~= seq![Seq::<char>::empty()]);
    }
    assert(lines_of(a + b) =~= lines_of(a).push(b));
}

proof fn lemma_trim_start_suffix(s: Seq<char>) -> (a: int)
    ensures
        0 <= a <= s.len(),
        trim_start(s) == s.subrange(a, s.len() as int),
    decreases s.len(),
{
    if s.len() > 0 && crate::text::is_space(s[0]) {
        let a1 = lemma_trim_start_suffix(s.drop_first());
        assert(s.drop_first().subrange(a1, s.drop_first().len() as int) =~= s.subrange(
            a1 + 1,
            s.len() as int,
        ));
        a1 + 1
    } else {
        assert(s.subrange(0, s.len() as int) =~= s);
        0
    }
}

proof fn lemma_trim_end_prefix(s: Seq<char>) -> (b: int)
    ensures
        0 <= b <= s.len(),
        trim_end(s) == s.subrange(0, b),
    decreases s.len(),
{
    if s.len() > 0 && crate::text::is_space(s.last()) {
        let b1 = lemma_trim_end_prefix(s.drop_last());
        assert(s.drop_last().subrange(0, b1) =~= s.subrange(0, b1));
        b1
    } else {
        assert(s.subrange(0, s.len() as int) =~= s);
        s.len() as int
    }
}

/// Trimming keeps characters of the line only: no line feed appears in the
/// trimmed line that was not in the line.
proof fn lemma_trimmed_no_lf(l: Seq<char>)
    requires
        forall|i: int| 0 <= i < l.len() ==> l[i] != '\n',
    ensures
        forall|i: int| 0 <= i < trimmed(l).len() ==> #[trigger] trimmed(l)[i] != '\n',
        l.len() == 0 ==> trimmed(l).len() == 0,
{
    let a = lemma_trim_start_suffix(l);
    let m = l.subrange(a, l.len() as int);
    let b = lemma_trim_end_prefix(m);
    assert forall|i: int| 0 <= i < trimmed(l).len() implies #[trigger] trimmed(l)[i] != '\n' by {
        assert(trimmed(l)[i] == l[a + i]);
    }
}

/// Every line of time-stamped lyrics that is no metadata tag and begins with a
/// `[mm:ss.xx]` stamp after time zero adds exactly one line to the lyrics, at
/// the end, with the stamp's time and the romanized text after the stamp,
/// also where that text is empty.
pub proof fn law_stamped_line_adds_one_line(raw: Seq<char>, line: Seq<char>)
    requires
        raw.len() == 0 || raw.last() == '\n',
        forall|i: int| 0 <= i < line.len() ==> line[i] != '\n',
        !is_metadata(trimmed(line)),
        has_timestamp(trimmed(line)),
        timestamp_millis(trimmed(line)) > 0,
    ensures
        ({
            let t = trimmed(line);
            synced_lyrics(raw + line) == synced_lyrics(raw).push(
                (timestamp_millis(t), kakasi_romaji(trimmed(t.subrange(10, t.len() as int)))),
            )
        }),
{
    lemma_trimmed_no_lf(line);
    lemma_lines_of_append(raw, line);
    let ls = lines_of(raw);
    assert(ls.push(line).drop_last() =~= ls);
    let t = trimmed(line);
    let e = (timestamp_millis(t), trimmed(t.subrange(10, t.len() as int)));
    assert(sync_entries(ls.push(line)) == sync_entries(ls).push(e));
    lemma_entries_not_negative(ls);
    let f = |x: (int, Seq<char>)| (x.0, kakasi_romaji(x.1));
    let body = sync_entries(ls).map_values(f);
    assert(sync_entries(ls).push(e).map_values(f) =~= body.push(f(e)));
    if body.len() > 0 {
        assert(body[0] == f(sync_entries(ls)[0]));
        assert(body.push(f(e))[0] == body[0]);
    }
    assert(synced_lyrics(raw + line) =~= synced_lyrics(raw).push(f(e)));
}

/// A line that, trimmed, is `[`, characters among which an ASCII letter, and
/// `]` is a metadata tag, whatever else it holds: it adds nothing to plain
/// lyrics nor to time-stamped lyrics.
pub proof fn law_tag_line_adds_nothing(raw: Seq<char>, line: Seq<char>)
    requires
        raw.len() == 0 || raw.last() == '\n',
        forall|i: int| 0 <= i < line.len() ==> line[i] != '\n',
        trimmed(line).len() >= 3,
        trimmed(line)[0] == '[',
        trimmed(line).last() == ']',
        exists|i: int|
            1 <= i < trimmed(line).len() - 1 && (('a' <= #[trigger] trimmed(line)[i] <= 'z') || (
            'A' <= trimmed(line)[i] <= 'Z')),
    ensures
        plain_lyrics(raw + line) == plain_lyrics(raw),
        synced_lyrics(raw + line) == synced_lyrics(raw),
{
    lemma_trimmed_no_lf(line);
    lemma_lines_of_append(raw, line);
    let ls = lines_of(raw);
    assert(ls.push(line).drop_last() =~= ls);
    assert(is_metadata(trimmed(line)));
    assert(plain_entries(ls.push(line)) == plain_entries(ls));
    assert(sync_entries(ls.push(line)) == sync_entries(ls));
}

/// A line of plain lyrics that is not shaped as a metadata tag adds exactly
/// one line, at the end: the trimmed line, romanized, also where it is blank.
pub proof fn law_plain_line_adds_one_line(raw: Seq<char>, line: Seq<char>)
    requires
        raw.len() == 0 || raw.last() == '\n',
        line.len() > 0,
        forall|i: int| 0 <= i < line.len() ==> line[i] != '\n',
        !(trimmed(line).len() >= 3 && trimmed(line)[0] == '[' && trimmed(line).last() == ']'
            && exists|i: int|
            1 <= i < trimmed(line).len() - 1 && (('a' <= #[trigger] trimmed(line)[i] <= 'z') || (
            'A' <= trimmed(line)[i] <= 'Z'))),
    ensures
        plain_lyrics(raw + line) == plain_lyrics(raw).push(kakasi_romaji(trimmed(line))),
{
    lemma_trimmed_no_lf(line);
    lemma_lines_of_append(raw, line);
    let ls = lines_of(raw);
    assert(ls.push(line).drop_last() =~= ls);
    assert(!is_metadata(trimmed(line)));
    assert(plain_entries(ls.push(line)) == plain_entries(ls).push(trimmed(line)));
    assert(plain_entries(ls).push(trimmed(line)).map_values(|t: Seq<char>| kakasi_romaji(t))
        =~= plain_entries(ls).map_values(|t: Seq<char>| kakasi_romaji(t)).push(
        kakasi_romaji(trimmed(line)),
    ));
}

} // verus!
