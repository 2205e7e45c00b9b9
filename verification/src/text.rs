//! Character-level text helpers shared by the parsers and the views.

use vstd::prelude::*;

verus! {

/// Appends `c` to `s`: `String::push`, which the standard library documents
/// as appending the given char to the end of the string.
#[verifier::external_body]
pub(crate) fn push_char(s: &mut String, c: char)
    ensures
        final(s)@ == old(s)@.push(c),
{
    s.push(c);
}

/// The characters of `s`, in order.
pub fn chars_of(s: &str) -> (r: Vec<char>)
    ensures
        r@ == s@,
{
    let mut r: Vec<char> = Vec::new();
    for c in it: s.chars()
        invariant
            r@ == it.seq().take(it.index() as int),
    {
        r.push(c);
    }
    r
}


/// The characters from `lo` up to `hi` of `v`, as a string.
pub fn string_of(v: &Vec<char>, lo: usize, hi: usize) -> (r: String)
    requires
        lo <= hi <= v@.len(),
    ensures
        r@ == v@.subrange(lo as int, hi as int),
{
    let mut r = String::new();
    let mut i = lo;
    while i < hi
        invariant
            lo <= i <= hi <= v@.len(),
            r@ == v@.subrange(lo as int, i as int),
        decreases hi - i,
    {
        push_char(&mut r, v[i]);
        assert(v@.subrange(lo as int, i + 1) =~= v@.subrange(lo as int, i as int).push(v@[i as int]));
        i = i + 1;
    }
    r
}

/// A copy of the characters from `lo` up to `hi` of `v`.
pub fn sub_chars(v: &Vec<char>, lo: usize, hi: usize) -> (r: Vec<char>)
    requires
        lo <= hi <= v@.len(),
    ensures
        r@ == v@.subrange(lo as int, hi as int),
{
    let mut r: Vec<char> = Vec::new();
    let mut i = lo;
    while i < hi
        invariant
            lo <= i <= hi <= v@.len(),
            r@ == v@.subrange(lo as int, i as int),
        decreases hi - i,
    {
        r.push(v[i]);
        assert(v@.subrange(lo as int, i + 1) =~= v@.subrange(lo as int, i as int).push(v@[i as int]));
        i = i + 1;
    }
    r
}

/// `needle` occurs in `s` at position `k`.
pub open spec fn occurs_at(s: Seq<char>, needle: Seq<char>, k: int) -> bool {
    0 <= k && k + needle.len() <= s.len() && s.subrange(k, k + needle.len()) == needle
}

/// `needle` occurs somewhere in `s` (`str::contains`).
pub open spec fn contains(s: Seq<char>, needle: Seq<char>) -> bool {
    exists|k: int| occurs_at(s, needle, k)
}

/// Whether `needle` occurs in `s`.
pub fn contains_chars(s: &Vec<char>, needle: &Vec<char>) -> (r: bool)
    ensures
        r == contains(s@, needle@),
{
    let n = s.len();
    let m = needle.len();
    if m > n {
        assert forall|k: int| !occurs_at(s@, needle@, k) by {}
        return false;
    }
    let mut k: usize = 0;
    while k <= n - m
        invariant
            n == s@.len(),
            m == needle@.len(),
            m <= n,
            k <= n - m + 1,
            forall|q: int| 0 <= q < k ==> !occurs_at(s@, needle@, q),
        decreases n - m + 1 - k,
    {
        let mut j: usize = 0;
        while j < m && s[k + j] == needle[j]
            invariant
                n == s@.len(),
                m == needle@.len(),
                k + m <= n,
                j <= m,
                forall|q: int| 0 <= q < j ==> s@[k + q] == needle@[q],
            decreases m - j,
        {
            j = j + 1;
        }
        if j == m {
            assert(s@.subrange(k as int, k + m) =~= needle@);
            assert(occurs_at(s@, needle@, k as int));
            return true;
        }
        assert(s@.subrange(k as int, k + m)[j as int] != needle@[j as int]);
        k = k + 1;
    }
    assert forall|q: int| !occurs_at(s@, needle@, q) by {
        if 0 <= q < k {
        }
    }
    false
}

/// Unicode `White_Space`, the property that `char::is_whitespace` tests.
pub open spec fn is_space(c: char) -> bool {
    ||| '\u{9}' <= c <= '\u{d}'
    ||| c == ' '
    ||| c == '\u{85}'
    ||| c == '\u{a0}'
    ||| c == '\u{1680}'
    ||| '\u{2000}' <= c <= '\u{200a}'
    ||| c == '\u{2028}'
    ||| c == '\u{2029}'
    ||| c == '\u{202f}'
    ||| c == '\u{205f}'
    ||| c == '\u{3000}'
}

/// Whether `c` is white space in the sense of `char::is_whitespace`.
pub fn is_space_char(c: char) -> (r: bool)
    ensures
        r == is_space(c),
{
    ('\u{9}' <= c && c <= '\u{d}') || c == ' ' || c == '\u{85}' || c == '\u{a0}' || c == '\u{1680}'
        || ('\u{2000}' <= c && c <= '\u{200a}') || c == '\u{2028}' || c == '\u{2029}'
        || c == '\u{202f}' || c == '\u{205f}' || c == '\u{3000}'
}

/// `s` without its leading white space.
pub open spec fn trim_start(s: Seq<char>) -> Seq<char>
    decreases s.len(),
{
    if s.len() > 0 && is_space(s[0]) {
        trim_start(s.drop_first())
    } else {
        s
    }
}

/// `s` without its trailing white space.
pub open spec fn trim_end(s: Seq<char>) -> Seq<char>
    decreases s.len(),
{
    if s.len() > 0 && is_space(s.last()) {
        trim_end(s.drop_last())
    } else {
        s
    }
}

/// `s` without leading and trailing white space, as `str::trim` gives it.
pub open spec fn trimmed(s: Seq<char>) -> Seq<char> {
    trim_end(trim_start(s))
}

/// Bounds of the trimmed part of `v[lo..hi]`.
pub fn trim_bounds(v: &Vec<char>, lo: usize, hi: usize) -> (r: (usize, usize))
    requires
        lo <= hi <= v@.len(),
    ensures
        lo <= r.0 <= r.1 <= hi,
        v@.subrange(r.0 as int, r.1 as int) == trimmed(v@.subrange(lo as int, hi as int)),
{
    let mut a = lo;
    while a < hi && is_space_char(v[a])
        invariant
            lo <= a <= hi <= v@.len(),
            trim_start(v@.subrange(lo as int, hi as int)) == trim_start(
                v@.subrange(a as int, hi as int),
            ),
        decreases hi - a,
    {
        assert(v@.subrange(a as int, hi as int).drop_first() =~= v@.subrange(a + 1, hi as int));
        a = a + 1;
    }
    let mut b = hi;
    while b > a && is_space_char(v[b - 1])
        invariant
            lo <= a <= b <= hi <= v@.len(),
            trim_start(v@.subrange(a as int, hi as int)) == v@.subrange(a as int, hi as int),
            trim_end(v@.subrange(a as int, hi as int)) == trim_end(v@.subrange(a as int, b as int)),
        decreases b - a,
    {
        assert(v@.subrange(a as int, b as int).drop_last() =~= v@.subrange(a as int, b - 1));
        b = b - 1;
    }
    (a, b)
}

/// `s` without leading and trailing white space (`str::trim`).
pub fn trim(s: &str) -> (r: String)
    ensures
        r@ == trimmed(s@),
{
    let v = chars_of(s);
    let (a, b) = trim_bounds(&v, 0, v.len());
    assert(v@.subrange(0, v@.len() as int) =~= v@);
    string_of(&v, a, b)
}


/// The contents of a sequence of character vectors.
pub open spec fn char_views(v: Seq<Vec<char>>) -> Seq<Seq<char>> {
    v.map_values(|l: Vec<char>| l@)
}

/// The contents of a sequence of strings.
pub open spec fn string_views(v: Seq<String>) -> Seq<Seq<char>> {
    v.map_values(|l: String| l@)
}

/// The pieces of `s` between line feeds, as `str::split('\n')` gives them.
pub open spec fn split_lf(s: Seq<char>) -> Seq<Seq<char>>
    decreases s.len(),
{
    if s.len() == 0 {
        seq![Seq::empty()]
    } else if s.last() == '\n' {
        split_lf(s.drop_last()).push(Seq::empty())
    } else {
        let p = split_lf(s.drop_last());
        p.update(p.len() - 1, p.last().push(s.last()))
    }
}

/// `l` without one trailing carriage return.
pub open spec fn strip_cr(l: Seq<char>) -> Seq<char> {
    if l.len() > 0 && l.last() == '\r' {
        l.drop_last()
    } else {
        l
    }
}

/// The lines of `s` as `str::lines` yields them: split at `\n` or `\r\n`,
/// without the terminators, and with no empty line after a final terminator.
pub open spec fn lines_of(s: Seq<char>) -> Seq<Seq<char>> {
    if s.len() == 0 {
        Seq::empty()
    } else {
        let p = split_lf(s);
        let ended = p.drop_last().map_values(|l: Seq<char>| strip_cr(l));
        if s.last() == '\n' {
            ended
        } else {
            ended.push(p.last())
        }
    }
}

fn strip_cr_vec(l: &mut Vec<char>)
    ensures
        final(l)@ == strip_cr(old(l)@),
{
    let n = l.len();
    if n > 0 && l[n - 1] == '\r' {
        l.pop();
    }
}

/// The lines of the characters `v`, as `str::lines` yields them.
pub fn lines_of_chars(v: &Vec<char>) -> (r: Vec<Vec<char>>)
    ensures
        char_views(r@) == lines_of(v@),
{
    let n = v.len();
    let mut done: Vec<Vec<char>> = Vec::new();
    let ghost mut raw: Seq<Seq<char>> = Seq::empty();
    let mut cur: Vec<char> = Vec::new();
    let mut i: usize = 0;
    while i < n
        invariant
            n == v@.len(),
            i <= n,
            split_lf(v@.take(i as int)) == raw.push(cur@),
            char_views(done@) == raw.map_values(|l: Seq<char>| strip_cr(l)),
        decreases n - i,
    {
        let c = v[i];
        assert(v@.take(i + 1).drop_last() =~= v@.take(i as int));
        assert(v@.take(i + 1).last() == c);
        if c == '\n' {
            let ghost old_raw = raw;
            proof {
                raw = raw.push(cur@);
            }
            let ghost before = done@;
            strip_cr_vec(&mut cur);
            let ghost stripped = cur@;
            done.push(cur);
            cur = Vec::new();
            assert(done@ == before.push(done@.last()));
            assert(done@.last()@ == stripped);
            assert(char_views(done@) =~= char_views(before).push(stripped));
            assert(raw.map_values(|l: Seq<char>| strip_cr(l)) =~= old_raw.map_values(
                |l: Seq<char>| strip_cr(l),
            ).push(stripped));
        } else {
            let ghost old_cur = cur@;
            cur.push(c);
            assert(raw.push(old_cur).update(raw.len() as int, old_cur.push(c)) =~= raw.push(cur@));
        }
        i = i + 1;
    }
    assert(v@.take(n as int) =~= v@);
    if n == 0 {
        assert(char_views(done@) =~= Seq::<Seq<char>>::empty());
        return done;
    }
    let ghost p = split_lf(v@);
    assert(p.drop_last() =~= raw);
    if v[n - 1] != '\n' {
        done.push(cur);
        assert(char_views(done@) =~= raw.map_values(|l: Seq<char>| strip_cr(l)).push(p.last()));
    }
    done
}

/// The lines of `s`, as `str::lines` yields them.
pub fn split_lines(s: &str) -> (r: Vec<String>)
    ensures
        string_views(r@) == lines_of(s@),
{
    let v = chars_of(s);
    let ls = lines_of_chars(&v);
    let mut r: Vec<String> = Vec::new();
    let mut i: usize = 0;
    while i < ls.len()
        invariant
            i <= ls@.len(),
            char_views(ls@) == lines_of(s@),
            string_views(r@) == char_views(ls@).take(i as int),
        decreases ls@.len() - i,
    {
        let line = string_of(&ls[i], 0, ls[i].len());
        assert(ls[i as int]@.subrange(0, ls[i as int]@.len() as int) =~= ls[i as int]@);
        let ghost before = r@;
        r.push(line);
        assert(r@ == before.push(r@.last()));
        assert(string_views(r@) =~= string_views(before).push(ls@[i as int]@));
        assert(char_views(ls@).take(i + 1) =~= char_views(ls@).take(i as int).push(ls@[i as int]@));
        i = i + 1;
    }
    assert(char_views(ls@).take(ls@.len() as int) =~= char_views(ls@));
    r
}


/// The ASCII digit for `d`, where `d < 10`.
pub open spec fn digit_char(d: nat) -> char {
    ((d + 48) as u8) as char
}

/// The decimal representation of `n`, without leading zeros.
pub open spec fn decimal(n: nat) -> Seq<char>
    decreases n,
{
    if n < 10 {
        seq![digit_char(n)]
    } else {
        decimal(n / 10).push(digit_char(n % 10))
    }
}

/// The decimal representation of `n`, padded with zeros to two places
/// (the `{:02}` format).
pub open spec fn padded2(n: nat) -> Seq<char> {
    if n < 10 {
        seq!['0', digit_char(n)]
    } else {
        decimal(n)
    }
}

/// `m:ss` for a count of seconds, both fields padded to two places:
/// the `{:02}:{:02}` rendering of whole minutes and remaining seconds.
pub open spec fn clock(secs: nat) -> Seq<char> {
    padded2(secs / 60) + seq![':'] + padded2(secs % 60)
}

fn digit(d: u64) -> (c: char)
    requires
        d < 10,
    ensures
        c == digit_char(d as nat),
{
    let b: u8 = d as u8 + 48;
    b as char
}

/// Appends the decimal representation of `n` to `s`.
pub fn push_decimal(s: &mut String, n: u64)
    ensures
        final(s)@ == old(s)@ + decimal(n as nat),
    decreases n,
{
    if n >= 10 {
        push_decimal(s, n / 10);
    }
    let ghost mid = s@;
    push_char(s, digit(n % 10));
    assert(s@ =~= old(s)@ + decimal(n as nat));
}

/// Appends `n` padded with zeros to two places to `s`.
pub fn push_padded2(s: &mut String, n: u64)
    ensures
        final(s)@ == old(s)@ + padded2(n as nat),
{
    if n < 10 {
        push_char(s, '0');
    }
    push_decimal(s, n);
    assert(s@ =~= old(s)@ + padded2(n as nat));
}

/// `secs` as minutes and seconds, `mm:ss`.
pub fn clock_label(secs: u64) -> (r: String)
    ensures
        r@ == clock(secs as nat),
{
    let mut r = String::new();
    push_padded2(&mut r, secs / 60);
    push_char(&mut r, ':');
    push_padded2(&mut r, secs % 60);
    assert(r@ =~= clock(secs as nat));
    r
}

} // verus!
