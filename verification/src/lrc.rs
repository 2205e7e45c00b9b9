//! The line grammar of LRC lyrics: which lines are metadata tags, and how a
//! line carries its `[mm:ss.xx]` time stamp.

use vstd::prelude::*;
use crate::text::{chars_of, string_of, sub_chars, trim_bounds, trimmed};

verus! {

/// An ASCII letter, `[a-zA-Z]`.
pub open spec fn is_letter(c: char) -> bool {
    ('a' <= c <= 'z') || ('A' <= c <= 'Z')
}

/// An ASCII decimal digit.
pub open spec fn is_digit(c: char) -> bool {
    '0' <= c <= '9'
}

/// The value of a decimal digit.
pub open spec fn digit_value(c: char) -> int {
    c as int - 48
}

/// A metadata tag such as `[ar: Artist]`: the whole (trimmed) line is
/// `[`, then characters other than a line feed of which at least one is an
/// ASCII letter, then `]` (the pattern `^\[.*[a-zA-Z].*\]$`).
pub open spec fn is_metadata(t: Seq<char>) -> bool {
    &&& t.len() >= 3
    &&& t[0] == '['
    &&& t.last() == ']'
    &&& exists|i: int| 1 <= i < t.len() - 1 && is_letter(#[trigger] t[i])
    &&& forall|i: int| 1 <= i < t.len() - 1 ==> #[trigger] t[i] != '\n'
}

/// The line begins with a time stamp `[mm:ss.xx]` (the pattern
/// `^\[\d{2}:\d{2}\.\d{2}\]`).
pub open spec fn has_timestamp(t: Seq<char>) -> bool {
    &&& t.len() >= 10
    &&& t[0] == '['
    &&& is_digit(t[1]) && is_digit(t[2])
    &&& t[3] == ':'
    &&& is_digit(t[4]) && is_digit(t[5])
    &&& t[6] == '.'
    &&& is_digit(t[7]) && is_digit(t[8])
    &&& t[9] == ']'
}

/// The time a line's time stamp stands for, in milliseconds: minutes,
/// seconds and hundredths of a second.
pub open spec fn timestamp_millis(t: Seq<char>) -> int {
    (10 * digit_value(t[1]) + digit_value(t[2])) * 60000 + (10 * digit_value(t[4]) + digit_value(
        t[5],
    )) * 1000 + (10 * digit_value(t[7]) + digit_value(t[8])) * 10
}

/// What a line of time-stamped lyrics contributes: for a line that, once
/// trimmed, is no metadata tag and begins with a time stamp, the time and the
/// trimmed text after the stamp; nothing for any other line.
pub open spec fn sync_entry(line: Seq<char>) -> Option<(int, Seq<char>)> {
    let t = trimmed(line);
    if !is_metadata(t) && has_timestamp(t) {
        Some((timestamp_millis(t), trimmed(t.subrange(10, t.len() as int))))
    } else {
        None
    }
}

/// What a line of plain lyrics contributes: the trimmed line, unless it is a
/// metadata tag.
pub open spec fn plain_entry(line: Seq<char>) -> Option<Seq<char>> {
    let t = trimmed(line);
    if is_metadata(t) {
        None
    } else {
        Some(t)
    }
}

fn is_digit_char(c: char) -> (r: bool)
    ensures
        r == is_digit(c),
{
    '0' <= c && c <= '9'
}

fn two_digits(a: char, b: char) -> (r: u64)
    requires
        is_digit(a),
        is_digit(b),
    ensures
        r == 10 * digit_value(a) + digit_value(b),
{
    let x = (a as u32 - 48) as u64;
    let y = (b as u32 - 48) as u64;
    10 * x + y
}

/// Whether the characters `t` form a metadata tag.
pub fn is_metadata_chars(t: &Vec<char>) -> (r: bool)
    ensures
        r == is_metadata(t@),
{
    let n = t.len();
    if n < 3 || t[0] != '[' || t[n - 1] != ']' {
        return false;
    }
    let mut letter = false;
    let mut i: usize = 1;
    while i < n - 1
        invariant
            n == t@.len(),
            n >= 3,
            1 <= i <= n - 1,
            letter == exists|k: int| 1 <= k < i && is_letter(#[trigger] t@[k]),
            forall|k: int| 1 <= k < i ==> #[trigger] t@[k] != '\n',
        decreases n - 1 - i,
    {
        let c = t[i];
        if c == '\n' {
            return false;
        }
        if ('a' <= c && c <= 'z') || ('A' <= c && c <= 'Z') {
            letter = true;
        }
        i = i + 1;
    }
    letter
}

/// The time stamp that begins the characters `t`, in milliseconds.
pub fn timestamp_of(t: &Vec<char>) -> (r: Option<u64>)
    ensures
        r is Some <==> has_timestamp(t@),
        r matches Some(ms) ==> ms == timestamp_millis(t@),
{
    if t.len() >= 10 && t[0] == '[' && is_digit_char(t[1]) && is_digit_char(t[2]) && t[3] == ':'
        && is_digit_char(t[4]) && is_digit_char(t[5]) && t[6] == '.' && is_digit_char(t[7])
        && is_digit_char(t[8]) && t[9] == ']' {
        let mins = two_digits(t[1], t[2]);
        let secs = two_digits(t[4], t[5]);
        let hundredths = two_digits(t[7], t[8]);
        Some(mins * 60000 + secs * 1000 + hundredths * 10)
    } else {
        None
    }
}

/// The entry a line of time-stamped lyrics contributes, as characters.
pub fn sync_entry_of(line: &Vec<char>) -> (r: Option<(u64, Vec<char>)>)
    ensures
        r is Some <==> sync_entry(line@) is Some,
        r matches Some(e) ==> (e.0 as int, e.1@) == sync_entry(line@)->0,
{
    let (a, b) = trim_bounds(line, 0, line.len());
    assert(line@.subrange(0, line@.len() as int) =~= line@);
    let t = sub_chars(line, a, b);
    if is_metadata_chars(&t) {
        return None;
    }
    match timestamp_of(&t) {
        Some(ms) => {
            let (c, d) = trim_bounds(&t, 10, t.len());
            Some((ms, sub_chars(&t, c, d)))
        },
        None => None,
    }
}

/// The entry a line of plain lyrics contributes, as characters.
pub fn plain_entry_of(line: &Vec<char>) -> (r: Option<Vec<char>>)
    ensures
        r is Some <==> plain_entry(line@) is Some,
        r matches Some(t) ==> t@ == plain_entry(line@)->0,
{
    let (a, b) = trim_bounds(line, 0, line.len());
    assert(line@.subrange(0, line@.len() as int) =~= line@);
    let t = sub_chars(line, a, b);
    if is_metadata_chars(&t) {
        None
    } else {
        Some(t)
    }
}

/// Whether `line`, trimmed, is a metadata tag such as `[ti: Title]`.
pub fn is_metadata_line(line: &str) -> (r: bool)
    ensures
        r == is_metadata(trimmed(line@)),
{
    let v = chars_of(line);
    let (a, b) = trim_bounds(&v, 0, v.len());
    assert(v@.subrange(0, v@.len() as int) =~= v@);
    is_metadata_chars(&sub_chars(&v, a, b))
}

/// The start time, in milliseconds, and the text of a line of time-stamped
/// lyrics, or `None` where the line contributes no lyrics line.
pub fn parse_sync_line(line: &str) -> (r: Option<(u64, String)>)
    ensures
        r is Some <==> sync_entry(line@) is Some,
        r matches Some(e) ==> (e.0 as int, e.1@) == sync_entry(line@)->0,
{
    let v = chars_of(line);
    match sync_entry_of(&v) {
        Some((ms, text)) => {
            let s = string_of(&text, 0, text.len());
            assert(text@.subrange(0, text@.len() as int) =~= text@);
            Some((ms, s))
        },
        None => None,
    }
}

/// The text of a line of plain lyrics, or `None` for a metadata tag.
pub fn parse_plain_line(line: &str) -> (r: Option<String>)
    ensures
        r is Some <==> plain_entry(line@) is Some,
        r matches Some(t) ==> t@ == plain_entry(line@)->0,
{
    let v = chars_of(line);
    match plain_entry_of(&v) {
        Some(t) => {
            let s = string_of(&t, 0, t.len());
            assert(t@.subrange(0, t@.len() as int) =~= t@);
            Some(s)
        },
        None => None,
    }
}

} // verus!
