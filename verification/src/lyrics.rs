//! Lyric data, LRC parsing and the relevance check between a search query and a song.

use vstd::prelude::*;
use crate::json::{array_of, field, field_of, i64_of, str_of, str_or_empty, Json};
use crate::kugou::{is_source, search_query, search_query_text, spec_is_source};
use crate::net::{percent_encode, url_encode};
use vstd::utf8::encode_utf8;
use crate::b64::{decode, decoded};
use crate::text::{trim_end, trim_start, concat_chars, utf8_lossy, utf8_lossy_chars, join3, same_text, lines, trim, trim_chars, lines_of, string_of, all_digits, digits_value, find, find_chars, is_digit, lemma_find_facts, match_at, slice_chars, split_once, split_once_chars, chars_of, contains_chars, has_infix, is_whitespace, is_ws, lowercase, to_lowercase_chars};

verus! {

/// One timed lyric line.
#[derive(Debug, Clone, PartialEq, Eq)]
pub struct LyricLine {
    pub time_ms: i64,
    pub text: String,
}

/// Lyrics of one track: lines sorted by time, and the track's duration when known
/// (0 when not).
#[derive(Debug, Clone, PartialEq, Eq)]
pub struct LyricsData {
    pub lines: Vec<LyricLine>,
    pub duration_ms: i64,
}

/// The abstract value of [`LyricsData`].
pub struct LyricsView {
    pub lines: Seq<(i64, Seq<char>)>,
    pub duration_ms: i64,
}

impl View for LyricsData {
    type V = LyricsView;

    open spec fn view(&self) -> LyricsView {
        LyricsView { lines: lines_view(self.lines@), duration_ms: self.duration_ms }
    }
}

impl View for LyricLine {
    type V = (i64, Seq<char>);

    open spec fn view(&self) -> (i64, Seq<char>) {
        (self.time_ms, self.text@)
    }
}

/// The lines of `lines` as (time, text) pairs.
pub open spec fn lines_view(lines: Seq<LyricLine>) -> Seq<(i64, Seq<char>)> {
    lines.map_values(|l: LyricLine| l@)
}

/// Characters that the relevance check ignores: white space and the listed punctuation.
pub open spec fn is_noise(c: char) -> bool {
    ||| is_ws(c)
    ||| c == '-' || c == '_' || c == '(' || c == ')' || c == '[' || c == ']'
    ||| c == '（' || c == '）' || c == '【' || c == '】' || c == '\'' || c == '"'
    ||| c == ',' || c == '.' || c == '，' || c == '。' || c == '!' || c == '！'
    ||| c == '?' || c == '？'
}

fn is_noise_char(c: char) -> (r: bool)
    ensures
        r == is_noise(c),
{
    is_whitespace(c) || c == '-' || c == '_' || c == '(' || c == ')' || c == '[' || c == ']' || c
        == '（' || c == '）' || c == '【' || c == '】' || c == '\'' || c == '"' || c == ',' || c
        == '.' || c == '，' || c == '。' || c == '!' || c == '！' || c == '?' || c == '？'
}

/// `s` without noise characters.
pub open spec fn strip_noise(s: Seq<char>) -> Seq<char>
    decreases s.len(),
{
    if s.len() == 0 {
        s
    } else if is_noise(s.last()) {
        strip_noise(s.drop_last())
    } else {
        strip_noise(s.drop_last()).push(s.last())
    }
}

/// The comparison form of a title: lowercased, without noise characters.
pub open spec fn norm_title(s: Seq<char>) -> Seq<char> {
    strip_noise(lowercase(s))
}

/// Two normalized titles are related: both non-empty and one contains the other.
pub open spec fn related(q: Seq<char>, n: Seq<char>) -> bool {
    q.len() > 0 && n.len() > 0 && (has_infix(q, n) || has_infix(n, q))
}

fn strip_noise_chars(s: &[char]) -> (r: Vec<char>)
    ensures
        r@ == strip_noise(s@),
{
    let mut out: Vec<char> = Vec::new();
    let mut i: usize = 0;
    proof {
        assert(s@.take(0) =~= Seq::<char>::empty());
    }
    while i < s.len()
        invariant
            i <= s.len(),
            out@ == strip_noise(s@.take(i as int)),
        decreases s.len() - i,
    {
        proof {
            assert(s@.take(i + 1).drop_last() =~= s@.take(i as int));
            assert(s@.take(i + 1).last() == s@[i as int]);
        }
        if !is_noise_char(s[i]) {
            out.push(s[i]);
        }
        i += 1;
    }
    proof {
        assert(s@.take(i as int) =~= s@);
    }
    out
}

/// Relevance of two titles that are already lowercased: after dropping noise
/// characters, both are non-empty and one contains the other.
pub fn lowered_titles_related(query_lower: &[char], song_lower: &[char]) -> (r: bool)
    ensures
        r == related(strip_noise(query_lower@), strip_noise(song_lower@)),
{
    let q = strip_noise_chars(query_lower);
    let n = strip_noise_chars(song_lower);
    if q.len() == 0 || n.len() == 0 {
        return false;
    }
    contains_chars(&q, &n) || contains_chars(&n, &q)
}

/// Relevance check between a search query and a song title: the two must overlap
/// lexically once case, white space and common punctuation are ignored.
pub fn query_matches_song(query: &str, song_name: &str) -> (r: bool)
    ensures
        r == related(norm_title(query@), norm_title(song_name@)),
{
    let q = to_lowercase_chars(&chars_of(query));
    let n = to_lowercase_chars(&chars_of(song_name));
    lowered_titles_related(&q, &n)
}

} // verus!

verus! {

/// The first index at or after `i` holding `.` or `:`.
pub open spec fn find_frac_sep_from(s: Seq<char>, i: int) -> Option<int>
    decreases s.len() - i,
{
    if i < 0 || i >= s.len() {
        None
    } else if s[i] == '.' || s[i] == ':' {
        Some(i)
    } else {
        find_frac_sep_from(s, i + 1)
    }
}

/// Milliseconds that the fraction digits of a time tag stand for: three digits are
/// milliseconds, two are centiseconds, one is tenths of a second.
pub open spec fn frac_ms(f: Seq<char>) -> int {
    if f.len() == 3 {
        digits_value(f)
    } else if f.len() == 2 {
        digits_value(f) * 10
    } else if f.len() == 1 {
        digits_value(f) * 100
    } else {
        0
    }
}

/// The seconds part and fraction part of `mm:`-less tag text `rest`: split at the
/// first `.` or `:`, which must then be followed by at least one character.
pub open spec fn sec_frac(rest: Seq<char>) -> Option<(Seq<char>, Seq<char>)> {
    match find_frac_sep_from(rest, 0) {
        Some(k) => if k + 1 < rest.len() {
            Some((rest.take(k), rest.skip(k + 1)))
        } else {
            None
        },
        None => Some((rest, Seq::<char>::empty())),
    }
}

/// An LRC time tag `[mm:ss]`, `[mm:ss.f]`, `[mm:ss.ff]` or `[mm:ss.fff]` (`:` also
/// accepted before the fraction) at the start of `s`: its time in milliseconds and the
/// number of characters it spans. Minutes have one to three digits, seconds one or two.
pub open spec fn time_tag(s: Seq<char>) -> Option<(int, int)> {
    match find(s, seq![']']) {
        None => None,
        Some(end) => if end < 1 {
            None
        } else {
            match split_once(s.subrange(1, end), seq![':']) {
                None => None,
                Some((mm, rest)) => match sec_frac(rest) {
                    None => None,
                    Some((ss, frac)) => if 1 <= mm.len() <= 3 && all_digits(mm) && 1 <= ss.len()
                        <= 2 && all_digits(ss) && frac.len() <= 3 && all_digits(frac) {
                        Some(
                            (
                                (digits_value(mm) * 60 + digits_value(ss)) * 1000 + frac_ms(frac),
                                end + 1,
                            ),
                        )
                    } else {
                        None
                    },
                },
            }
        },
    }
}

fn find_frac_sep(s: &[char]) -> (r: Option<usize>)
    ensures
        r matches Some(k) ==> find_frac_sep_from(s@, 0) == Some(k as int) && k < s.len(),
        r is None ==> find_frac_sep_from(s@, 0) is None,
{
    let mut i: usize = 0;
    while i < s.len()
        invariant
            i <= s.len(),
            find_frac_sep_from(s@, 0) == find_frac_sep_from(s@, i as int),
        decreases s.len() - i,
    {
        if s[i] == '.' || s[i] == ':' {
            return Some(i);
        }
        i += 1;
    }
    None
}

/// Value of a short run of ASCII digits (at most three), or `None` when `d` is empty,
/// too long or holds anything else.
fn small_digits(d: &[char], max_len: usize) -> (r: Option<i64>)
    requires
        max_len <= 3,
    ensures
        r matches Some(v) ==> 1 <= d@.len() <= max_len && all_digits(d@) && v == digits_value(d@)
            && 0 <= v < 1000,
        r is None ==> !(1 <= d@.len() <= max_len && all_digits(d@)),
{
    if d.len() == 0 || d.len() > max_len {
        return None;
    }
    let mut v: i64 = 0;
    let mut i: usize = 0;
    proof {
        assert(d@.take(0) =~= Seq::<char>::empty());
    }
    while i < d.len()
        invariant
            i <= d.len() <= 3,
            all_digits(d@.take(i as int)),
            v == digits_value(d@.take(i as int)),
            0 <= v < 1000,
            i == 0 ==> v == 0,
            i == 1 ==> v < 10,
            i == 2 ==> v < 100,
        decreases d.len() - i,
    {
        let c = d[i];
        if !('0' <= c && c <= '9') {
            proof {
                assert(!is_digit(d@[i as int]));
            }
            return None;
        }
        let ghost prev = d@.take(i as int);
        v = v * 10 + (c as u32 - '0' as u32) as i64;
        i += 1;
        proof {
            assert(d@.take(i as int).drop_last() =~= prev);
            assert forall|k: int| 0 <= k < i implies is_digit(#[trigger] d@.take(i as int)[k]) by {
                if k < i - 1 {
                    assert(d@.take(i as int)[k] == prev[k]);
                }
            }
        }
    }
    proof {
        assert(d@.take(i as int) =~= d@);
    }
    Some(v)
}

/// Parses the time tag at the start of `s` (which starts with `[`): milliseconds and
/// the number of characters the tag spans.
fn parse_time_tag(s: &[char]) -> (r: Option<(i64, usize)>)
    requires
        s.len() > 0,
        s@[0] == '[',
    ensures
        r matches Some(p) ==> time_tag(s@) == Some((p.0 as int, p.1 as int)),
        r is None ==> time_tag(s@) is None,
{
    let mut close: Vec<char> = Vec::new();
    close.push(']');
    let mut colon: Vec<char> = Vec::new();
    colon.push(':');
    proof {
        lemma_find_facts(s@, close@);
    }
    let end = match find_chars(s, &close) {
        Some(e) => e,
        None => {
            return None;
        },
    };
    if end < 1 {
        return None;
    }
    proof {
        assert(match_at(s@, close@, end as int));
    }
    let inner = slice_chars(s, 1, end);
    let (mm, rest) = match split_once_chars(&inner, &colon) {
        Some(p) => p,
        None => {
            return None;
        },
    };
    let (ss, frac) = match find_frac_sep(&rest) {
        Some(k) => {
            if k + 1 >= rest.len() {
                return None;
            }
            (slice_chars(&rest, 0, k), slice_chars(&rest, k + 1, rest.len()))
        },
        None => (rest.clone(), Vec::new()),
    };
    proof {
        match find_frac_sep_from(rest@, 0) {
            Some(k) => {
                assert(ss@ =~= rest@.take(k));
                assert(frac@ =~= rest@.skip(k + 1));
            },
            None => {
                assert(frac@ =~= Seq::<char>::empty());
            },
        }
        assert(sec_frac(rest@) == Some((ss@, frac@)));
    }
    let min = match small_digits(&mm, 3) {
        Some(v) => v,
        None => {
            return None;
        },
    };
    let sec = match small_digits(&ss, 2) {
        Some(v) => v,
        None => {
            return None;
        },
    };
    let f: i64 = if frac.len() == 0 {
        0
    } else {
        match small_digits(&frac, 3) {
            Some(v) => if frac.len() == 3 {
                v
            } else if frac.len() == 2 {
                v * 10
            } else {
                v * 100
            },
            None => {
                return None;
            },
        }
    };
    proof {
        if frac.len() == 0 {
            assert(all_digits(frac@));
        }
    }
    Some(((min * 60 + sec) * 1000 + f, end + 1))
}

} // verus!

verus! {

/// A time tag starts `r` and spans between one and `r.len()` characters.
pub open spec fn tag_fits(r: Seq<char>) -> bool {
    match time_tag(r) {
        Some(tag) => 1 <= tag.1 <= r.len(),
        None => false,
    }
}

/// Splits one LRC line into its time tags (in order) and the remaining text: every
/// well-formed time tag is taken out wherever it stands; any other character is text.
pub open spec fn scan_line(r: Seq<char>) -> (Seq<i64>, Seq<char>)
    decreases r.len(),
{
    if r.len() == 0 {
        (Seq::<i64>::empty(), Seq::<char>::empty())
    } else if r[0] == '[' && tag_fits(r) {
        let tag = time_tag(r).unwrap();
        let rest = scan_line(r.skip(tag.1));
        (seq![tag.0 as i64] + rest.0, rest.1)
    } else {
        let rest = scan_line(r.drop_first());
        (rest.0, seq![r[0]] + rest.1)
    }
}

/// The lyric lines one LRC line contributes: one per time tag, all sharing the
/// trimmed text; none when that text is empty (metadata tags, blank lines).
pub open spec fn line_entries(raw: Seq<char>) -> Seq<(i64, Seq<char>)> {
    let scanned = scan_line(raw);
    let text = trim(scanned.1);
    if text.len() == 0 {
        Seq::<(i64, Seq<char>)>::empty()
    } else {
        scanned.0.map_values(|t: i64| (t, text))
    }
}

/// The lyric lines of several LRC lines, in input order.
pub open spec fn entries(ls: Seq<Seq<char>>) -> Seq<(i64, Seq<char>)>
    decreases ls.len(),
{
    if ls.len() == 0 {
        Seq::<(i64, Seq<char>)>::empty()
    } else {
        entries(ls.drop_last()) + line_entries(ls.last())
    }
}

/// The first index of `s` whose time is later than `t` (`s.len()` when none is).
pub open spec fn first_later(s: Seq<(i64, Seq<char>)>, t: i64) -> int
    decreases s.len(),
{
    if s.len() == 0 || s[0].0 > t {
        0
    } else {
        1 + first_later(s.drop_first(), t)
    }
}

/// `s` (sorted by time) with `e` inserted after every line not later than it.
pub open spec fn insert_by_time(s: Seq<(i64, Seq<char>)>, e: (i64, Seq<char>)) -> Seq<
    (i64, Seq<char>),
> {
    s.insert(first_later(s, e.0), e)
}

/// Stable sort by time: lines with equal times keep their input order.
pub open spec fn sort_by_time(s: Seq<(i64, Seq<char>)>) -> Seq<(i64, Seq<char>)>
    decreases s.len(),
{
    if s.len() == 0 {
        s
    } else {
        insert_by_time(sort_by_time(s.drop_last()), s.last())
    }
}

/// Lines in non-decreasing time order.
pub open spec fn time_sorted(s: Seq<(i64, Seq<char>)>) -> bool {
    forall|i: int, j: int| 0 <= i <= j < s.len() ==> s[i].0 <= s[j].0
}

/// What `parse_lrc` yields for an LRC text: the lines of every LRC line, stably
/// sorted by time.
pub open spec fn lrc_lines(lrc: Seq<char>) -> Seq<(i64, Seq<char>)> {
    sort_by_time(entries(lines(lrc)))
}

proof fn lemma_first_later(s: Seq<(i64, Seq<char>)>, t: i64)
    ensures
        0 <= first_later(s, t) <= s.len(),
        forall|k: int| 0 <= k < first_later(s, t) ==> s[k].0 <= t,
        first_later(s, t) < s.len() ==> s[first_later(s, t)].0 > t,
    decreases s.len(),
{
    if s.len() > 0 && s[0].0 <= t {
        lemma_first_later(s.drop_first(), t);
        assert forall|k: int| 0 <= k < first_later(s, t) implies s[k].0 <= t by {
            if k > 0 {
                assert(s[k] == s.drop_first()[k - 1]);
            }
        }
    }
}

proof fn lemma_insert_sorted(s: Seq<(i64, Seq<char>)>, e: (i64, Seq<char>))
    requires
        time_sorted(s),
    ensures
        time_sorted(insert_by_time(s, e)),
        insert_by_time(s, e).len() == s.len() + 1,
{
    lemma_first_later(s, e.0);
    let p = first_later(s, e.0);
    let r = insert_by_time(s, e);
    assert forall|i: int, j: int| 0 <= i <= j < r.len() implies r[i].0 <= r[j].0 by {
        if p < s.len() {
            assert(s[p].0 > e.0);
        }
        if i < p && j >= p + 1 {
            assert(r[i] == s[i]);
            assert(r[j] == s[j - 1]);
        }
    }
}

/// Stable sorting by time yields lines in time order.
pub proof fn lemma_sort_by_time_sorted(s: Seq<(i64, Seq<char>)>)
    ensures
        time_sorted(sort_by_time(s)),
        sort_by_time(s).len() == s.len(),
    decreases s.len(),
{
    if s.len() > 0 {
        lemma_sort_by_time_sorted(s.drop_last());
        lemma_insert_sorted(sort_by_time(s.drop_last()), s.last());
    }
}

/// The first index of `out` whose time is later than `t`.
fn first_later_index(out: &Vec<LyricLine>, t: i64) -> (r: usize)
    ensures
        r as int == first_later(lines_view(out@), t),
{
    let ghost v = lines_view(out@);
    proof {
        lemma_first_later(v, t);
    }
    let mut i: usize = 0;
    while i < out.len()
        invariant
            i <= out.len(),
            v == lines_view(out@),
            v.len() == out.len(),
            forall|k: int| 0 <= k < i ==> v[k].0 <= t,
        decreases out.len() - i,
    {
        if out[i].time_ms > t {
            proof {
                lemma_first_later_unique(v, t, i as int);
            }
            return i;
        }
        i += 1;
    }
    proof {
        lemma_first_later_unique(v, t, v.len() as int);
    }
    i
}

proof fn lemma_first_later_unique(s: Seq<(i64, Seq<char>)>, t: i64, p: int)
    requires
        0 <= p <= s.len(),
        forall|k: int| 0 <= k < p ==> s[k].0 <= t,
        p < s.len() ==> s[p].0 > t,
    ensures
        first_later(s, t) == p,
{
    lemma_first_later(s, t);
    let q = first_later(s, t);
    if q < p {
        assert(s[q].0 > t);
    }
    if p < q {
        assert(s[p].0 <= t);
    }
}

/// Inserts `line` into `out` (sorted by time) after every line not later than it.
pub(crate) fn insert_line(out: &mut Vec<LyricLine>, line: LyricLine)
    ensures
        lines_view(final(out)@) == insert_by_time(lines_view(old(out)@), line@),
{
    let p = first_later_index(out, line.time_ms);
    proof {
        lemma_first_later(lines_view(out@), line.time_ms);
    }
    let ghost before = out@;
    out.insert(p, line);
    proof {
        assert(lines_view(out@) =~= lines_view(before).insert(p as int, line@));
    }
}

} // verus!

verus! {

/// Splits one LRC line into its time tags and its text.
fn scan_line_chars(raw: &[char]) -> (r: (Vec<i64>, Vec<char>))
    ensures
        (r.0@, r.1@) == scan_line(raw@),
{
    let mut times: Vec<i64> = Vec::new();
    let mut text: Vec<char> = Vec::new();
    let mut pos: usize = 0;
    proof {
        assert(raw@.skip(0) =~= raw@);
        assert(times@ + scan_line(raw@).0 =~= scan_line(raw@).0);
        assert(text@ + scan_line(raw@).1 =~= scan_line(raw@).1);
    }
    while pos < raw.len()
        invariant
            pos <= raw.len(),
            scan_line(raw@).0 == times@ + scan_line(raw@.skip(pos as int)).0,
            scan_line(raw@).1 == text@ + scan_line(raw@.skip(pos as int)).1,
        decreases raw.len() - pos,
    {
        let ghost rest = raw@.skip(pos as int);
        let mut consumed = false;
        if raw[pos] == '[' {
            let tail = slice_chars(raw, pos, raw.len());
            proof {
                assert(tail@ =~= rest);
            }
            match parse_time_tag(&tail) {
                Some((t, len)) => {
                    if 1 <= len && len <= tail.len() {
                        let ghost before_t = times@;
                        times.push(t);
                        proof {
                            assert(tag_fits(rest));
                            assert(rest.skip(len as int) =~= raw@.skip(pos + len));
                            assert(times@ + scan_line(raw@.skip(pos + len)).0 =~= before_t + (seq![
                                t,
                            ] + scan_line(rest.skip(len as int)).0));
                        }
                        pos = pos + len;
                        consumed = true;
                    }
                },
                None => {},
            }
        }
        if !consumed {
            let ghost before_x = text@;
            proof {
                assert(!(rest[0] == '[' && tag_fits(rest)));
                assert(rest.drop_first() =~= raw@.skip(pos + 1));
                assert(rest[0] == raw@[pos as int]);
            }
            text.push(raw[pos]);
            proof {
                assert(text@ + scan_line(raw@.skip(pos + 1)).1 =~= before_x + (seq![rest[0]]
                    + scan_line(rest.drop_first()).1));
            }
            pos = pos + 1;
        }
    }
    proof {
        assert(raw@.skip(pos as int) =~= Seq::<char>::empty());
        assert(times@ + Seq::<i64>::empty() =~= times@);
        assert(text@ + Seq::<char>::empty() =~= text@);
    }
    (times, text)
}

/// Parses LRC text: every `[mm:ss.xx]` tag of a line gives one lyric line with that
/// line's trimmed text; metadata tags and lines without text give none; the result is
/// stably sorted by time.
pub fn parse_lrc(lrc: &str) -> (r: Vec<LyricLine>)
    ensures
        lines_view(r@) == lrc_lines(lrc@),
        time_sorted(lines_view(r@)),
        forall|i: int| 0 <= i < r.len() ==> (#[trigger] r@[i]).text@.len() > 0,
{
    let chars = chars_of(lrc);
    let ls = lines_of(&chars);
    let ghost lv = ls@.map_values(|l: Vec<char>| l@);
    let mut out: Vec<LyricLine> = Vec::new();
    let mut i: usize = 0;
    proof {
        assert(lv.take(0) =~= Seq::<Seq<char>>::empty());
        assert(lines_view(out@) =~= Seq::<(i64, Seq<char>)>::empty());
    }
    while i < ls.len()
        invariant
            i <= ls.len(),
            lv == ls@.map_values(|l: Vec<char>| l@),
            lv == lines(chars@),
            chars@ == lrc@,
            lines_view(out@) == sort_by_time(entries(lv.take(i as int))),
        decreases ls.len() - i,
    {
        let (times, text) = scan_line_chars(&ls[i]);
        let trimmed = trim_chars(&text);
        let ghost prefix = entries(lv.take(i as int));
        proof {
            assert(lv.take(i + 1).drop_last() =~= lv.take(i as int));
            assert(lv.take(i + 1).last() == ls@[i as int]@);
            assert(entries(lv.take(i + 1)) == prefix + line_entries(ls@[i as int]@));
        }
        if trimmed.len() > 0 {
            let ghost le = times@.map_values(|t: i64| (t, trimmed@));
            proof {
                assert(line_entries(ls@[i as int]@) == le);
                assert(prefix + le.take(0) =~= prefix);
            }
            let mut j: usize = 0;
            while j < times.len()
                invariant
                    j <= times.len(),
                    le == times@.map_values(|t: i64| (t, trimmed@)),
                    lines_view(out@) == sort_by_time(prefix + le.take(j as int)),
                decreases times.len() - j,
            {
                let line = LyricLine { time_ms: times[j], text: string_of(&trimmed) };
                let ghost before = prefix + le.take(j as int);
                insert_line(&mut out, line);
                j += 1;
                proof {
                    assert((prefix + le.take(j as int)).drop_last() =~= before);
                    assert((prefix + le.take(j as int)).last() == (times@[j - 1], trimmed@));
                }
            }
            proof {
                assert(le.take(j as int) =~= le);
            }
        } else {
            proof {
                assert(line_entries(ls@[i as int]@) =~= Seq::<(i64, Seq<char>)>::empty());
                assert(prefix + Seq::<(i64, Seq<char>)>::empty() =~= prefix);
            }
        }
        i += 1;
    }
    proof {
        assert(lv.take(i as int) =~= lv);
        lemma_sort_by_time_sorted(entries(lv));
        lemma_entries_texts(lv);
        lemma_sort_keeps(entries(lv), |x: (i64, Seq<char>)| x.1.len() > 0);
        assert forall|k: int| 0 <= k < out.len() implies (#[trigger] out@[k]).text@.len() > 0 by {
            assert(lines_view(out@)[k] == out@[k]@);
        }
    }
    out
}

/// Every line text in `s` is non-empty.
pub open spec fn texts_nonempty(s: Seq<(i64, Seq<char>)>) -> bool {
    forall|k: int| 0 <= k < s.len() ==> (#[trigger] s[k]).1.len() > 0
}

proof fn lemma_entries_texts(ls: Seq<Seq<char>>)
    ensures
        texts_nonempty(entries(ls)),
    decreases ls.len(),
{
    if ls.len() > 0 {
        lemma_entries_texts(ls.drop_last());
        let a = entries(ls.drop_last());
        let b = line_entries(ls.last());
        assert forall|k: int| 0 <= k < (a + b).len() implies (#[trigger] (a + b)[k]).1.len() > 0 by {
            if k >= a.len() {
                assert((a + b)[k] == b[k - a.len()]);
            }
        }
    }
}

/// A lyric line as `parse_lrc` gives it: a non-negative time and a non-empty text
/// without white space at either end.
pub open spec fn lrc_entry_ok(e: (i64, Seq<char>)) -> bool {
    e.0 >= 0 && e.1.len() > 0 && trim(e.1) == e.1
}

/// Selects the lines at time `t`.
pub open spec fn at_time(t: i64) -> spec_fn((i64, Seq<char>)) -> bool {
    |e: (i64, Seq<char>)| e.0 == t
}

proof fn lemma_small_digits(d: Seq<char>)
    requires
        all_digits(d),
        d.len() <= 3,
    ensures
        0 <= digits_value(d),
        d.len() <= 3 ==> digits_value(d) <= 999,
        d.len() <= 2 ==> digits_value(d) <= 99,
        d.len() <= 1 ==> digits_value(d) <= 9,
    decreases d.len(),
{
    if d.len() > 0 {
        assert(all_digits(d.drop_last()));
        assert(is_digit(d[d.len() - 1]));
        lemma_small_digits(d.drop_last());
    }
}

proof fn lemma_time_tag_range(r: Seq<char>)
    ensures
        time_tag(r) matches Some(t) ==> 0 <= t.0 <= 60_039_999,
{
    if let Some(end) = find(r, seq![']']) {
        if end >= 1 {
            if let Some((mm, rest)) = split_once(r.subrange(1, end), seq![':']) {
                if let Some((ss, frac)) = sec_frac(rest) {
                    if 1 <= mm.len() <= 3 && all_digits(mm) && 1 <= ss.len() <= 2 && all_digits(ss)
                        && frac.len() <= 3 && all_digits(frac) {
                        lemma_small_digits(mm);
                        lemma_small_digits(ss);
                        lemma_small_digits(frac);
                    }
                }
            }
        }
    }
}

proof fn lemma_scan_times_nonneg(r: Seq<char>)
    ensures
        forall|k: int| 0 <= k < scan_line(r).0.len() ==> #[trigger] scan_line(r).0[k] >= 0,
    decreases r.len(),
{
    if r.len() > 0 {
        if r[0] == '[' && tag_fits(r) {
            let tag = time_tag(r).unwrap();
            lemma_time_tag_range(r);
            lemma_scan_times_nonneg(r.skip(tag.1));
            let rest = scan_line(r.skip(tag.1));
            assert(0 <= tag.0 <= 60_039_999);
            assert((tag.0 as i64) as int == tag.0);
            assert(scan_line(r).0 == seq![tag.0 as i64] + rest.0);
            assert forall|k: int| 0 <= k < scan_line(r).0.len() implies #[trigger] scan_line(r).0[k]
                >= 0 by {
                if k > 0 {
                    assert(scan_line(r).0[k] == rest.0[k - 1]);
                } else {
                    assert(scan_line(r).0[0] == tag.0 as i64);
                }
            }
        } else {
            lemma_scan_times_nonneg(r.drop_first());
            assert(scan_line(r).0 == scan_line(r.drop_first()).0);
        }
    }
}

proof fn lemma_trim_start_head(s: Seq<char>)
    ensures
        trim_start(s).len() > 0 ==> !is_ws(trim_start(s)[0]),
    decreases s.len(),
{
    if s.len() > 0 && is_ws(s[0]) {
        lemma_trim_start_head(s.drop_first());
    }
}

proof fn lemma_trim_end_prefix(s: Seq<char>)
    ensures
        trim_end(s).len() <= s.len(),
        trim_end(s) == s.take(trim_end(s).len() as int),
        trim_end(s).len() > 0 ==> !is_ws(trim_end(s).last()),
    decreases s.len(),
{
    if s.len() > 0 && is_ws(s.last()) {
        lemma_trim_end_prefix(s.drop_last());
        let n = trim_end(s).len() as int;
        assert(s.drop_last().take(n) =~= s.take(n));
    } else {
        assert(s.take(s.len() as int) =~= s);
    }
}

/// Trimmed text has no white space at either end, so trimming it again changes nothing.
proof fn lemma_trim_idempotent(s: Seq<char>)
    ensures
        trim(trim(s)) == trim(s),
{
    let u = trim_start(s);
    let w = trim_end(u);
    lemma_trim_start_head(s);
    lemma_trim_end_prefix(u);
    if w.len() > 0 {
        assert(w[0] == u[0]);
        assert(trim_start(w) == w);
        assert(trim_end(w) == w);
    } else {
        assert(trim_start(w) == w);
        assert(trim_end(w) == w);
    }
}

proof fn lemma_line_entries_ok(raw: Seq<char>)
    ensures
        forall|k: int| 0 <= k < line_entries(raw).len() ==> lrc_entry_ok(#[trigger] line_entries(raw)[k]),
{
    let scanned = scan_line(raw);
    let text = trim(scanned.1);
    lemma_scan_times_nonneg(raw);
    lemma_trim_idempotent(scanned.1);
    if text.len() > 0 {
        assert forall|k: int| 0 <= k < line_entries(raw).len() implies lrc_entry_ok(
            #[trigger] line_entries(raw)[k],
        ) by {
            assert(line_entries(raw)[k] == (scanned.0[k], text));
        }
    }
}

proof fn lemma_entries_ok(ls: Seq<Seq<char>>)
    ensures
        forall|k: int| 0 <= k < entries(ls).len() ==> lrc_entry_ok(#[trigger] entries(ls)[k]),
    decreases ls.len(),
{
    if ls.len() > 0 {
        lemma_entries_ok(ls.drop_last());
        lemma_line_entries_ok(ls.last());
        let a = entries(ls.drop_last());
        let b = line_entries(ls.last());
        assert forall|k: int| 0 <= k < (a + b).len() implies lrc_entry_ok(#[trigger] (a + b)[k]) by {
            if k >= a.len() {
                assert((a + b)[k] == b[k - a.len()]);
            } else {
                assert((a + b)[k] == a[k]);
            }
        }
    }
}

/// Sorting by time keeps every property that all the lines have.
proof fn lemma_sort_keeps(s: Seq<(i64, Seq<char>)>, p: spec_fn((i64, Seq<char>)) -> bool)
    requires
        forall|k: int| 0 <= k < s.len() ==> p(#[trigger] s[k]),
    ensures
        forall|k: int| 0 <= k < sort_by_time(s).len() ==> p(#[trigger] sort_by_time(s)[k]),
    decreases s.len(),
{
    if s.len() > 0 {
        assert forall|k: int| 0 <= k < s.drop_last().len() implies p(#[trigger] s.drop_last()[k]) by {
            assert(s.drop_last()[k] == s[k]);
        }
        assert(p(s[s.len() - 1]));
        lemma_sort_keeps(s.drop_last(), p);
        let t = sort_by_time(s.drop_last());
        lemma_first_later(t, s.last().0);
        let q = first_later(t, s.last().0);
        assert forall|k: int| 0 <= k < t.insert(q, s.last()).len() implies p(
            #[trigger] t.insert(q, s.last())[k],
        ) by {
            if k < q {
                assert(t.insert(q, s.last())[k] == t[k]);
            } else if k > q {
                assert(t.insert(q, s.last())[k] == t[k - 1]);
            }
        }
    }
}

proof fn lemma_filter_none(s: Seq<(i64, Seq<char>)>, t: i64)
    requires
        forall|k: int| 0 <= k < s.len() ==> (#[trigger] s[k]).0 != t,
    ensures
        s.filter(at_time(t)) =~= Seq::<(i64, Seq<char>)>::empty(),
    decreases s.len(),
{
    reveal(Seq::filter);
    if s.len() > 0 {
        assert forall|k: int| 0 <= k < s.drop_last().len() implies (#[trigger] s.drop_last()[k]).0 != t by {
            assert(s.drop_last()[k] == s[k]);
        }
        assert(s[s.len() - 1].0 != t);
        lemma_filter_none(s.drop_last(), t);
    }
}

/// The sort is stable: the lines at any one time come out in the order they went in.
proof fn lemma_sort_stable(s: Seq<(i64, Seq<char>)>, t: i64)
    ensures
        sort_by_time(s).filter(at_time(t)) == s.filter(at_time(t)),
    decreases s.len(),
{
    broadcast use Seq::filter_distributes_over_add, Seq::lemma_filter_push;

    if s.len() == 0 {
    } else {
        let x = s.last();
        let s0 = s.drop_last();
        lemma_sort_stable(s0, t);
        lemma_sort_by_time_sorted(s0);
        let u = sort_by_time(s0);
        lemma_first_later(u, x.0);
        let q = first_later(u, x.0);
        let a = u.take(q);
        let b = u.skip(q);
        assert(u.insert(q, x) =~= a + seq![x] + b);
        assert(u =~= a + b);
        assert(s =~= s0.push(x));
        assert(seq![x] =~= Seq::<(i64, Seq<char>)>::empty().push(x));
        assert(Seq::<(i64, Seq<char>)>::empty().filter(at_time(t)) =~= Seq::<(i64, Seq<char>)>::empty())
            by {
            reveal(Seq::filter);
        }
        if x.0 == t {
            assert forall|k: int| 0 <= k < b.len() implies (#[trigger] b[k]).0 != t by {
                assert(b[k] == u[q + k]);
            }
            lemma_filter_none(b, t);
            assert(a.filter(at_time(t)) + b.filter(at_time(t)) =~= a.filter(at_time(t)));
            assert(a.filter(at_time(t)) + seq![x] + b.filter(at_time(t)) =~= a.filter(at_time(t)).push(x));
        } else {
            assert(a.filter(at_time(t)) + seq![x].filter(at_time(t)) =~= a.filter(at_time(t)));
        }
    }
}

/// What `parse_lrc` returns for any text: lines in time order, each with a
/// non-negative time and a non-empty text with no white space at either end; and for
/// every time, the lines at that time are exactly those the input lines give for it,
/// in input order (the sort is stable).
pub proof fn law_lrc_lines_shape(lrc: Seq<char>)
    ensures
        time_sorted(lrc_lines(lrc)),
        forall|k: int| 0 <= k < lrc_lines(lrc).len() ==> lrc_entry_ok(#[trigger] lrc_lines(lrc)[k]),
        forall|t: i64| #[trigger] lrc_lines(lrc).filter(at_time(t)) == entries(lines(lrc)).filter(at_time(t)),
{
    let e = entries(lines(lrc));
    lemma_sort_by_time_sorted(e);
    lemma_entries_ok(lines(lrc));
    lemma_sort_keeps(e, |x: (i64, Seq<char>)| lrc_entry_ok(x));
    assert forall|t: i64| #[trigger] lrc_lines(lrc).filter(at_time(t)) == e.filter(at_time(t)) by {
        lemma_sort_stable(e, t);
    }
}

} // verus!

verus! {

/// Track details looked up by id or by title: the completion of what a media source
/// reports.
#[derive(Debug, Clone, PartialEq, Eq)]
pub struct TrackMeta {
    pub title: String,
    pub artist: String,
    pub album: String,
    pub cover_url: String,
    pub duration_ms: i64,
}

} // verus!

verus! {

/// A copy of lyric lines.
pub fn copy_lines(lines: &Vec<LyricLine>) -> (r: Vec<LyricLine>)
    ensures
        lines_view(r@) == lines_view(lines@),
{
    let mut out: Vec<LyricLine> = Vec::new();
    let mut i: usize = 0;
    while i < lines.len()
        invariant
            i <= lines.len(),
            lines_view(out@) == lines_view(lines@.take(i as int)),
        decreases lines.len() - i,
    {
        let ghost before = out@;
        let line = LyricLine { time_ms: lines[i].time_ms, text: lines[i].text.clone() };
        assert(line@ == lines@[i as int]@);
        out.push(line);
        i += 1;
        proof {
            assert(lines_view(out@) =~= lines_view(before).push(line@));
            assert(lines_view(lines@.take(i as int)) =~= lines_view(lines@.take(i - 1)).push(
                lines@[i - 1]@,
            ));
        }
    }
    proof {
        assert(lines@.take(i as int) =~= lines@);
    }
    out
}

/// A copy of lyrics.
pub fn copy_lyrics(d: &LyricsData) -> (r: LyricsData)
    ensures
        r@ == d@,
{
    LyricsData { lines: copy_lines(&d.lines), duration_ms: d.duration_ms }
}

} // verus!

verus! {

/// Case-insensitive equality of two names: their lowercase forms are equal.
pub open spec fn names_equal(a: Seq<char>, b: Seq<char>) -> bool {
    lowercase(a) == lowercase(b)
}

/// Whether two names are equal ignoring case.
fn norm_eq(a: &str, b: &str) -> (r: bool)
    ensures
        r == names_equal(a@, b@),
{
    let x = string_of(&to_lowercase_chars(&chars_of(a)));
    let y = string_of(&to_lowercase_chars(&chars_of(b)));
    same_text(x.as_str(), y.as_str())
}

/// Whether one of the `name` strings of a list of artist objects is the artist, ignoring
/// case.
pub open spec fn names_artist(list: Seq<Json>, artist: Seq<char>) -> bool {
    exists|i: int|
        0 <= i < list.len() && (#[trigger] str_of(field(list[i], "name"@)) matches Some(n)
            && names_equal(n, artist))
}

/// Whether a song object's artist list (under `key`) names the artist.
pub open spec fn song_by_artist(song: Json, key: Seq<char>, artist: Seq<char>) -> bool {
    match array_of(field(song, key)) {
        Some(list) => names_artist(list, artist),
        None => false,
    }
}

fn song_by_artist_exec(song: &Json, key: &str, artist: &str) -> (r: bool)
    ensures
        r == song_by_artist(*song, key@, artist@),
{
    let list = match song.get(key) {
        Some(v) => match v.as_array() {
            Some(a) => a,
            None => {
                return false;
            },
        },
        None => {
            return false;
        },
    };
    let mut i: usize = 0;
    while i < list.len()
        invariant
            i <= list.len(),
            array_of(field(*song, key@)) == Some(list@),
            forall|j: int|
                0 <= j < i ==> !(#[trigger] str_of(field(list@[j], "name"@)) matches Some(n)
                    && names_equal(n, artist@)),
        decreases list.len() - i,
    {
        let hit = match list[i].get("name") {
            Some(nv) => match nv.as_str() {
                Some(n) => norm_eq(n, artist),
                None => false,
            },
            None => false,
        };
        if hit {
            return true;
        }
        i += 1;
    }
    false
}

/// The first song at or after `from` whose artist list names the artist.
pub open spec fn first_by_artist(songs: Seq<Json>, key: Seq<char>, artist: Seq<char>, from: int) -> Option<
    int,
>
    decreases songs.len() - from,
{
    if from < 0 || from >= songs.len() {
        None
    } else if song_by_artist(songs[from], key, artist) {
        Some(from)
    } else {
        first_by_artist(songs, key, artist, from + 1)
    }
}

fn first_by_artist_index(songs: &Vec<Json>, key: &str, artist: &str) -> (r: Option<usize>)
    ensures
        r matches Some(i) ==> first_by_artist(songs@, key@, artist@, 0) == Some(i as int) && i
            < songs.len(),
        r is None ==> first_by_artist(songs@, key@, artist@, 0) is None,
{
    let mut i: usize = 0;
    while i < songs.len()
        invariant
            i <= songs.len(),
            first_by_artist(songs@, key@, artist@, 0) == first_by_artist(
                songs@,
                key@,
                artist@,
                i as int,
            ),
        decreases songs.len() - i,
    {
        if song_by_artist_exec(&songs[i], key, artist) {
            return Some(i);
        }
        i += 1;
    }
    None
}

/// Which result of a search list is used, given how to read its title: with a known
/// artist, the first result that names the artist; otherwise the first result, unless
/// its title (when it has one) is unrelated to the query.
pub open spec fn picked_song(
    songs: Seq<Json>,
    artists_key: Seq<char>,
    name_key: Seq<char>,
    title: Seq<char>,
    artist: Seq<char>,
) -> Option<int> {
    if songs.len() == 0 {
        None
    } else {
        let by_artist = if artist.len() > 0 {
            first_by_artist(songs, artists_key, artist, 0)
        } else {
            None
        };
        match by_artist {
            Some(i) => Some(i),
            None => match str_of(field(songs[0], name_key)) {
                Some(name) => if related(norm_title(search_query(title, artist)), norm_title(name)) {
                    Some(0)
                } else {
                    None
                },
                None => Some(0),
            },
        }
    }
}

fn picked_song_index(songs: &Vec<Json>, artists_key: &str, name_key: &str, title: &str, artist: &str) -> (r:
    Option<usize>)
    ensures
        r matches Some(i) ==> picked_song(songs@, artists_key@, name_key@, title@, artist@) == Some(
            i as int,
        ) && i < songs.len(),
        r is None ==> picked_song(songs@, artists_key@, name_key@, title@, artist@) is None,
{
    if songs.len() == 0 {
        return None;
    }
    if !artist.is_empty() {
        match first_by_artist_index(songs, artists_key, artist) {
            Some(i) => {
                return Some(i);
            },
            None => {},
        }
    }
    let query = search_query_text(title, artist);
    match songs[0].get(name_key) {
        Some(nv) => match nv.as_str() {
            Some(name) => {
                if query_matches_song(query.as_str(), name) {
                    Some(0)
                } else {
                    None
                }
            },
            None => Some(0),
        },
        None => Some(0),
    }
}

/// Id and duration of a NetEase search result: its integer `id` (required) and its
/// `duration` (0 when missing).
pub open spec fn id_duration_163(song: Json) -> Option<(i64, i64)> {
    match i64_of(field(song, "id"@)) {
        Some(id) => Some(
            (
                id,
                match i64_of(field(song, "duration"@)) {
                    Some(d) => d,
                    None => 0,
                },
            ),
        ),
        None => None,
    }
}

/// The songs of a NetEase search response (`result.songs`).
pub open spec fn songs_163(json: Json) -> Option<Seq<Json>> {
    array_of(field_of(field_of(Some(json), "result"@), "songs"@))
}

/// The (song id, duration) picked from a NetEase search response for a track.
pub open spec fn spec_pick_163(json: Json, title: Seq<char>, artist: Seq<char>) -> Option<(i64, i64)> {
    match songs_163(json) {
        None => None,
        Some(songs) => match picked_song(songs, "artists"@, "name"@, title, artist) {
            Some(i) => id_duration_163(songs[i]),
            None => None,
        },
    }
}

fn id_duration_163_of(song: &Json) -> (r: Option<(i64, i64)>)
    ensures
        r == id_duration_163(*song),
{
    let id = match song.get("id") {
        Some(v) => match v.as_i64() {
            Some(x) => x,
            None => {
                return None;
            },
        },
        None => {
            return None;
        },
    };
    let d = match song.get("duration") {
        Some(v) => match v.as_i64() {
            Some(x) => x,
            None => 0,
        },
        None => 0,
    };
    Some((id, d))
}

/// Picks (song id, duration in ms) from a NetEase search response.
pub fn pick_163(json: &Json, title: &str, artist: &str) -> (r: Option<(i64, i64)>)
    ensures
        r == spec_pick_163(*json, title@, artist@),
{
    let songs = match json.get("result") {
        Some(res) => match res.get("songs") {
            Some(sv) => match sv.as_array() {
                Some(a) => a,
                None => {
                    return None;
                },
            },
            None => {
                return None;
            },
        },
        None => {
            return None;
        },
    };
    match picked_song_index(songs, "artists", "name", title, artist) {
        Some(i) => id_duration_163_of(&songs[i]),
        None => None,
    }
}

/// Songmid and interval (seconds, 0 when missing) of a QQ Music search result.
pub open spec fn mid_interval_qq(song: Json) -> Option<(Seq<char>, i64)> {
    match str_of(field(song, "songmid"@)) {
        Some(mid) => Some(
            (
                mid,
                match i64_of(field(song, "interval"@)) {
                    Some(d) => d,
                    None => 0,
                },
            ),
        ),
        None => None,
    }
}

/// The songs of a QQ Music search response (`data.song.list`).
pub open spec fn songs_qq(json: Json) -> Option<Seq<Json>> {
    array_of(field_of(field_of(field_of(Some(json), "data"@), "song"@), "list"@))
}

/// The (songmid, interval in seconds) picked from a QQ Music search response.
pub open spec fn spec_pick_qq(json: Json, title: Seq<char>, artist: Seq<char>) -> Option<
    (Seq<char>, i64),
> {
    match songs_qq(json) {
        None => None,
        Some(songs) => match picked_song(songs, "singer"@, "songname"@, title, artist) {
            Some(i) => mid_interval_qq(songs[i]),
            None => None,
        },
    }
}

/// Picks (songmid, interval in seconds) from a QQ Music search response.
pub fn pick_qq_raw(json: &Json, title: &str, artist: &str) -> (r: Option<(String, i64)>)
    ensures
        r matches Some(p) ==> spec_pick_qq(*json, title@, artist@) == Some((p.0@, p.1)),
        r is None ==> spec_pick_qq(*json, title@, artist@) is None,
{
    let songs = match json.get("data") {
        Some(d) => match d.get("song") {
            Some(sg) => match sg.get("list") {
                Some(l) => match l.as_array() {
                    Some(a) => a,
                    None => {
                        return None;
                    },
                },
                None => {
                    return None;
                },
            },
            None => {
                return None;
            },
        },
        None => {
            return None;
        },
    };
    let i = match picked_song_index(songs, "singer", "songname", title, artist) {
        Some(i) => i,
        None => {
            return None;
        },
    };
    let song = &songs[i];
    let mid = match song.get("songmid") {
        Some(v) => match v.as_str() {
            Some(m) => m.to_owned(),
            None => {
                return None;
            },
        },
        None => {
            return None;
        },
    };
    let secs = match song.get("interval") {
        Some(v) => match v.as_i64() {
            Some(x) => x,
            None => 0,
        },
        None => 0,
    };
    proof {
        assert(songs_qq(*json) == Some(songs@));
        assert(mid_interval_qq(songs@[i as int]) == Some((mid@, secs)));
    }
    Some((mid, secs))
}

/// Picks (songmid, duration in ms) from a QQ Music search response; the interval is
/// given in seconds.
pub fn pick_qq(json: &Json, title: &str, artist: &str) -> (r: Option<(String, i64)>)
    requires
        spec_pick_qq(*json, title@, artist@) matches Some(p) ==> i64::MIN <= p.1 * 1000 <= i64::MAX,
    ensures
        r matches Some(p) ==> (spec_pick_qq(*json, title@, artist@) matches Some(q) && p.0@ == q.0
            && p.1 == q.1 * 1000),
        r is None ==> spec_pick_qq(*json, title@, artist@) is None,
{
    match pick_qq_raw(json, title, artist) {
        Some((mid, secs)) => Some((mid, secs * 1000)),
        None => None,
    }
}

} // verus!

verus! {

/// The NetEase search URL for a track.
pub open spec fn spec_search_163_url(title: Seq<char>, artist: Seq<char>) -> Seq<char> {
    "https://music.163.com/api/search/get/web?s="@ + percent_encode(
        encode_utf8(search_query(title, artist)),
    ) + "&type=1&offset=0&total=true&limit=10"@
}

/// The NetEase search URL for a track.
pub fn search_163_url(title: &str, artist: &str) -> (r: String)
    ensures
        r@ == spec_search_163_url(title@, artist@),
{
    let q = search_query_text(title, artist);
    join3(
        "https://music.163.com/api/search/get/web?s=",
        url_encode(q.as_str()).as_str(),
        "&type=1&offset=0&total=true&limit=10",
    )
}

/// The NetEase lyric URL of a song id.
pub open spec fn spec_lyric_163_url(song_id: Seq<char>) -> Seq<char> {
    "https://music.163.com/api/song/lyric?id="@ + song_id + "&lv=-1&kv=-1&tv=-1"@
}

/// The NetEase lyric URL of a song id.
pub fn lyric_163_url(song_id: &str) -> (r: String)
    ensures
        r@ == spec_lyric_163_url(song_id@),
{
    join3("https://music.163.com/api/song/lyric?id=", song_id, "&lv=-1&kv=-1&tv=-1")
}

/// The NetEase song detail URL of a song id.
pub open spec fn spec_detail_163_url(song_id: Seq<char>) -> Seq<char> {
    "https://music.163.com/api/song/detail?id="@ + song_id + "&ids=%5B"@ + song_id + "%5D"@
}

/// The NetEase song detail URL of a song id.
pub fn detail_163_url(song_id: &str) -> (r: String)
    ensures
        r@ == spec_detail_163_url(song_id@),
{
    let head = join3("https://music.163.com/api/song/detail?id=", song_id, "&ids=%5B");
    join3(head.as_str(), song_id, "%5D")
}

/// The QQ Music search URL for a track.
pub open spec fn spec_search_qq_url(title: Seq<char>, artist: Seq<char>) -> Seq<char> {
    "https://c.y.qq.com/soso/fcgi-bin/client_search_cp?w="@ + percent_encode(
        encode_utf8(search_query(title, artist)),
    ) + "&format=json&n=10&p=1&cr=1&t=0"@
}

/// The QQ Music search URL for a track.
pub fn search_qq_url(title: &str, artist: &str) -> (r: String)
    ensures
        r@ == spec_search_qq_url(title@, artist@),
{
    let q = search_query_text(title, artist);
    join3(
        "https://c.y.qq.com/soso/fcgi-bin/client_search_cp?w=",
        url_encode(q.as_str()).as_str(),
        "&format=json&n=10&p=1&cr=1&t=0",
    )
}

/// The QQ Music lyric URL of a songmid.
pub open spec fn spec_lyric_qq_url(songmid: Seq<char>) -> Seq<char> {
    "https://c.y.qq.com/lyric/fcgi-bin/fcg_query_lyric_new.fcg?songmid="@ + songmid
        + "&format=json&nobase64=0&g_tk=5381"@
}

/// The QQ Music lyric URL of a songmid.
pub fn lyric_qq_url(songmid: &str) -> (r: String)
    ensures
        r@ == spec_lyric_qq_url(songmid@),
{
    join3(
        "https://c.y.qq.com/lyric/fcgi-bin/fcg_query_lyric_new.fcg?songmid=",
        songmid,
        "&format=json&nobase64=0&g_tk=5381",
    )
}

/// The LRC text of a NetEase lyric response (`lrc.lyric`, empty when missing).
pub open spec fn lrc_163(json: Option<Json>) -> Seq<char> {
    str_or_empty(field_of(field_of(json, "lrc"@), "lyric"@))
}

fn lrc_163_text(json: Option<&Json>) -> (r: String)
    ensures
        r@ == lrc_163(
            match json {
                Some(j) => Some(*j),
                None => None,
            },
        ),
{
    match json {
        Some(j) => match j.get("lrc") {
            Some(l) => match l.get("lyric") {
                Some(v) => match v.as_str() {
                    Some(s) => s.to_owned(),
                    None => String::new(),
                },
                None => String::new(),
            },
            None => String::new(),
        },
        None => String::new(),
    }
}

/// Lyrics from a NetEase lyric response, with the duration the search gave.
pub fn lyrics_163(lyric_response: &Json, duration_ms: i64) -> (r: LyricsData)
    ensures
        r@.lines == lrc_lines(lrc_163(Some(*lyric_response))),
        r@.duration_ms == duration_ms,
{
    let lrc = lrc_163_text(Some(lyric_response));
    LyricsData { lines: parse_lrc(lrc.as_str()), duration_ms }
}

/// The duration of a NetEase detail response (`songs[0].duration`, 0 when missing).
pub open spec fn detail_duration_163(json: Option<Json>) -> i64 {
    match array_of(field_of(json, "songs"@)) {
        Some(songs) => if songs.len() > 0 {
            match i64_of(field(songs[0], "duration"@)) {
                Some(d) => d,
                None => 0,
            }
        } else {
            0
        },
        None => 0,
    }
}

fn detail_duration_163_of(json: Option<&Json>) -> (r: i64)
    ensures
        r == detail_duration_163(
            match json {
                Some(j) => Some(*j),
                None => None,
            },
        ),
{
    let j = match json {
        Some(j) => j,
        None => {
            return 0;
        },
    };
    let songs = match j.get("songs") {
        Some(sv) => match sv.as_array() {
            Some(a) => a,
            None => {
                return 0;
            },
        },
        None => {
            return 0;
        },
    };
    if songs.len() == 0 {
        return 0;
    }
    match songs[0].get("duration") {
        Some(d) => match d.as_i64() {
            Some(x) => x,
            None => 0,
        },
        None => 0,
    }
}

/// Lyrics of a NetEase song id, from its lyric and detail responses (either may have
/// failed): the LRC of the first, the duration of the second; `None` when there is
/// neither LRC text nor a duration.
pub fn lyrics_by_id_163(lyric_response: Option<&Json>, detail_response: Option<&Json>) -> (r: Option<
    LyricsData,
>)
    ensures
        ({
            let lrc = lrc_163(
                match lyric_response {
                    Some(j) => Some(*j),
                    None => None,
                },
            );
            let d = detail_duration_163(
                match detail_response {
                    Some(j) => Some(*j),
                    None => None,
                },
            );
            &&& r is None <==> (lrc.len() == 0 && d == 0)
            &&& r matches Some(x) ==> x@.lines == lrc_lines(lrc) && x@.duration_ms == d
        }),
{
    let lrc = lrc_163_text(lyric_response);
    let duration_ms = detail_duration_163_of(detail_response);
    if lrc.as_str().is_empty() && duration_ms == 0 {
        return None;
    }
    Some(LyricsData { lines: parse_lrc(lrc.as_str()), duration_ms })
}

} // verus!

verus! {

/// The `name` strings of a list of artist objects, in order (other entries skipped).
pub open spec fn names_of(list: Seq<Json>) -> Seq<Seq<char>>
    decreases list.len(),
{
    if list.len() == 0 {
        Seq::empty()
    } else {
        let rest = names_of(list.drop_last());
        match str_of(field(list.last(), "name"@)) {
            Some(n) => rest.push(n),
            None => rest,
        }
    }
}

/// Texts joined with a separator between neighbours.
pub open spec fn join_texts(parts: Seq<Seq<char>>, sep: Seq<char>) -> Seq<char>
    decreases parts.len(),
{
    if parts.len() == 0 {
        Seq::empty()
    } else if parts.len() == 1 {
        parts[0]
    } else {
        join_texts(parts.drop_last(), sep) + sep + parts.last()
    }
}

/// The artists of a NetEase song object, joined with ` / ` (empty without a list).
pub open spec fn artists_163(song: Json) -> Seq<char> {
    match array_of(field(song, "artists"@)) {
        Some(list) => join_texts(names_of(list), " / "@),
        None => Seq::empty(),
    }
}

fn artists_163_text(song: &Json) -> (r: String)
    ensures
        r@ == artists_163(*song),
{
    let list = match song.get("artists") {
        Some(v) => match v.as_array() {
            Some(a) => a,
            None => {
                return String::new();
            },
        },
        None => {
            return String::new();
        },
    };
    let mut out: Vec<char> = Vec::new();
    let mut count: usize = 0;
    let mut i: usize = 0;
    proof {
        assert(list@.take(0) =~= Seq::<Json>::empty());
    }
    while i < list.len()
        invariant
            i <= list.len(),
            count <= i,
            array_of(field(*song, "artists"@)) == Some(list@),
            count == names_of(list@.take(i as int)).len(),
            out@ == join_texts(names_of(list@.take(i as int)), " / "@),
        decreases list.len() - i,
    {
        let ghost parts = names_of(list@.take(i as int));
        proof {
            assert(list@.take(i + 1).drop_last() =~= list@.take(i as int));
            assert(list@.take(i + 1).last() == list@[i as int]);
        }
        match list[i].get("name") {
            Some(nv) => match nv.as_str() {
                Some(n) => {
                    proof {
                        assert(parts.push(n@).drop_last() =~= parts);
                    }
                    if count > 0 {
                        out = concat_chars(&concat_chars(&out, &chars_of(" / ")), &chars_of(n));
                    } else {
                        out = chars_of(n);
                    }
                    count += 1;
                },
                None => {},
            },
            None => {},
        }
        i += 1;
    }
    proof {
        assert(list@.take(i as int) =~= list@);
    }
    string_of(&out)
}

/// The cover URL of a NetEase song object: the album's `picUrl` asking for 512×512,
/// empty when there is none.
pub open spec fn cover_163(song: Json) -> Seq<char> {
    let pic = str_or_empty(field_of(field_of(Some(song), "album"@), "picUrl"@));
    if pic.len() == 0 {
        Seq::empty()
    } else {
        pic + "?param=512y512"@
    }
}

/// The track details of a NetEase detail response: from its first song the name,
/// the artists joined with ` / `, the album name, the cover and the duration; `None`
/// without a song, or when name, cover and duration are all missing.
pub open spec fn spec_detail_163(json: Json) -> Option<(Seq<char>, Seq<char>, Seq<char>, Seq<char>, i64)> {
    match array_of(field_of(Some(json), "songs"@)) {
        Some(songs) => if songs.len() > 0 {
            let s = songs[0];
            let title = str_or_empty(field(s, "name"@));
            let cover = cover_163(s);
            let d = match i64_of(field(s, "duration"@)) {
                Some(x) => x,
                None => 0,
            };
            if title.len() == 0 && cover.len() == 0 && d == 0 {
                None
            } else {
                Some(
                    (
                        title,
                        artists_163(s),
                        str_or_empty(field_of(field_of(Some(s), "album"@), "name"@)),
                        cover,
                        d,
                    ),
                )
            }
        } else {
            None
        },
        None => None,
    }
}

fn str_text(v: Option<&Json>) -> (r: String)
    ensures
        r@ == str_or_empty(
            match v {
                Some(j) => Some(*j),
                None => None,
            },
        ),
{
    match v {
        Some(j) => match j.as_str() {
            Some(s) => s.to_owned(),
            None => String::new(),
        },
        None => String::new(),
    }
}

/// Track details from a NetEase song detail response.
pub fn fetch_163_detail(detail_response: &Json) -> (r: Option<TrackMeta>)
    ensures
        r matches Some(m) ==> spec_detail_163(*detail_response) == Some(
            (m.title@, m.artist@, m.album@, m.cover_url@, m.duration_ms),
        ),
        r is None ==> spec_detail_163(*detail_response) is None,
{
    let songs = match detail_response.get("songs") {
        Some(sv) => match sv.as_array() {
            Some(a) => a,
            None => {
                return None;
            },
        },
        None => {
            return None;
        },
    };
    if songs.len() == 0 {
        return None;
    }
    let song = &songs[0];
    let title = str_text(song.get("name"));
    let artist = artists_163_text(song);
    let (album, pic) = match song.get("album") {
        Some(al) => (str_text(al.get("name")), str_text(al.get("picUrl"))),
        None => (String::new(), String::new()),
    };
    let cover_url = if pic.as_str().is_empty() {
        String::new()
    } else {
        string_of(&concat_chars(&chars_of(pic.as_str()), &chars_of("?param=512y512")))
    };
    let duration_ms = match song.get("duration") {
        Some(d) => match d.as_i64() {
            Some(x) => x,
            None => 0,
        },
        None => 0,
    };
    proof {
        assert(cover_url@ =~= cover_163(*song));
    }
    if title.as_str().is_empty() && cover_url.as_str().is_empty() && duration_ms == 0 {
        return None;
    }
    Some(TrackMeta { title, artist, album, cover_url, duration_ms })
}

/// The base64 LRC of a QQ Music lyric response (`lyric`, empty when missing).
pub open spec fn lyric_b64_qq(json: Json) -> Seq<char> {
    str_or_empty(field(json, "lyric"@))
}

/// Lyrics from a QQ Music lyric response (`lyric` is the LRC in base64), with the
/// duration the search gave: no lines when the response has no lyric.
pub fn lyrics_qq(lyric_response: &Json, duration_ms: i64) -> (r: LyricsData)
    ensures
        r@.duration_ms == duration_ms,
        lyric_b64_qq(*lyric_response).len() == 0 ==> r@.lines.len() == 0,
        lyric_b64_qq(*lyric_response).len() > 0 ==> r@.lines == lrc_lines(
            utf8_lossy(decoded(lyric_b64_qq(*lyric_response))),
        ),
{
    let b64 = str_text(lyric_response.get("lyric"));
    if b64.as_str().is_empty() {
        let lines: Vec<LyricLine> = Vec::new();
        proof {
            assert(lines_view(lines@) =~= Seq::<(i64, Seq<char>)>::empty());
        }
        return LyricsData { lines, duration_ms };
    }
    let bytes = decode(b64.as_str());
    let text = string_of(&utf8_lossy_chars(&bytes));
    LyricsData { lines: parse_lrc(text.as_str()), duration_ms }
}

/// Whether a source's answer carries anything: lyric lines or a duration.
pub open spec fn informative(r: Option<LyricsData>) -> bool {
    r matches Some(d) && (d.lines@.len() > 0 || d.duration_ms > 0)
}

/// What follows a source's first attempt for a track.
#[derive(Debug)]
pub enum Attempt {
    /// The source's answer is final.
    Done(Option<LyricsData>),
    /// Ask the same source again by title alone.
    RetryWithoutArtist,
}

/// Settles a source's first attempt (searched with the artist when known): an answer
/// with lines or a duration stands; otherwise, with an artist, the source is asked
/// again by title alone, and without one there is no answer.
pub fn settle_attempt(first: Option<LyricsData>, artist: &str) -> (r: Attempt)
    ensures
        informative(first) ==> r == Attempt::Done(first),
        !informative(first) && artist@.len() == 0 ==> r == Attempt::Done(None),
        !informative(first) && artist@.len() > 0 ==> r is RetryWithoutArtist,
{
    let good = match &first {
        Some(d) => d.lines.len() > 0 || d.duration_ms > 0,
        None => false,
    };
    if good {
        Attempt::Done(first)
    } else if artist.is_empty() {
        Attempt::Done(None)
    } else {
        Attempt::RetryWithoutArtist
    }
}

} // verus!

verus! {

/// A lyrics source. KuGou tracks ask KuGou first (same catalogue, best version match);
/// the others ask NetEase, then QQ Music.
#[derive(Debug, Clone, Copy, PartialEq, Eq, Structural)]
pub enum Source {
    Kugou,
    Netease,
    Qq,
}

/// The sources asked for a track of a media source, in order.
pub open spec fn spec_sources_for(source_app_id: Seq<char>) -> Seq<Source> {
    if spec_is_source(source_app_id) {
        seq![Source::Kugou, Source::Netease, Source::Qq]
    } else {
        seq![Source::Netease, Source::Qq]
    }
}

/// The sources asked, in order, for a track of the given media source.
pub fn sources_for(source_app_id: &str) -> (r: Vec<Source>)
    ensures
        r@ == spec_sources_for(source_app_id@),
{
    let mut v: Vec<Source> = Vec::new();
    if is_source(source_app_id) {
        v.push(Source::Kugou);
    }
    v.push(Source::Netease);
    v.push(Source::Qq);
    proof {
        assert(v@ =~= spec_sources_for(source_app_id@));
    }
    v
}

/// The abstract value of an optional lyrics result.
pub open spec fn opt_lyrics(r: Option<LyricsData>) -> Option<LyricsView> {
    match r {
        Some(d) => Some(d@),
        None => None,
    }
}

/// The first result with lyric lines.
pub open spec fn first_with_lines(rs: Seq<Option<LyricsView>>) -> Option<LyricsView>
    decreases rs.len(),
{
    if rs.len() == 0 {
        None
    } else {
        let earlier = first_with_lines(rs.drop_last());
        if earlier is Some {
            earlier
        } else if (rs.last() matches Some(d) && d.lines.len() > 0) {
            rs.last()
        } else {
            None
        }
    }
}

/// The first result with a positive duration.
pub open spec fn first_timed(rs: Seq<Option<LyricsView>>) -> Option<LyricsView>
    decreases rs.len(),
{
    if rs.len() == 0 {
        None
    } else {
        let earlier = first_timed(rs.drop_last());
        if earlier is Some {
            earlier
        } else if (rs.last() matches Some(d) && d.duration_ms > 0) {
            rs.last()
        } else {
            None
        }
    }
}

/// The lyrics kept from the sources' results, in asking order: the first with lines;
/// failing that, the first with a duration (kept as a fallback); else none.
pub open spec fn lyrics_choice(rs: Seq<Option<LyricsView>>) -> Option<LyricsView> {
    if first_with_lines(rs) is Some {
        first_with_lines(rs)
    } else {
        first_timed(rs)
    }
}

/// One fetch the search asks for: a source and the track to ask it about.
#[derive(Debug)]
pub struct LyricsFetch {
    pub source: Source,
    pub title: String,
    pub artist: String,
}

/// A lyrics search over sources in order, driven by whoever performs the fetches: ask
/// [`LyricsSearch::next_fetch`], run it, hand the answer to [`LyricsSearch::feed`], and
/// take [`LyricsSearch::result`] once there is nothing left to fetch.
pub struct LyricsSearch {
    title: String,
    artist: String,
    sources: Vec<Source>,
    asked: usize,
    best: Option<LyricsData>,
    found: bool,
    fed: Ghost<Seq<Option<LyricsView>>>,
}

/// The abstract value of a [`LyricsSearch`]: the track, the sources in order, and the
/// results handed in so far.
pub struct SearchView {
    pub title: Seq<char>,
    pub artist: Seq<char>,
    pub sources: Seq<Source>,
    pub fed: Seq<Option<LyricsView>>,
}

impl View for LyricsSearch {
    type V = SearchView;

    closed spec fn view(&self) -> SearchView {
        SearchView {
            title: self.title@,
            artist: self.artist@,
            sources: self.sources@,
            fed: self.fed@,
        }
    }
}

/// The next source a search asks: none for an empty title (nothing to search with),
/// once a source gave lyric lines, or when every source has answered.
pub open spec fn search_next(v: SearchView) -> Option<Source> {
    if v.title.len() == 0 || first_with_lines(v.fed) is Some || v.fed.len() >= v.sources.len() {
        None
    } else {
        Some(v.sources[v.fed.len() as int])
    }
}

/// What a search yields from the results it got.
pub open spec fn search_result(v: SearchView) -> Option<LyricsView> {
    lyrics_choice(v.fed)
}

impl LyricsSearch {
    /// The search's internal consistency.
    pub closed spec fn wf(&self) -> bool {
        &&& self.fed@.len() <= self.sources@.len()
        &&& self.asked == self.fed@.len()
        &&& self.found == first_with_lines(self.fed@) is Some
        &&& opt_lyrics(self.best) == lyrics_choice(self.fed@)
        &&& self.title@.len() == 0 ==> self.fed@.len() == 0
    }

    /// The fetch to run next, if any.
    pub fn next_fetch(&self) -> (r: Option<LyricsFetch>)
        requires
            self.wf(),
        ensures
            r is Some <==> search_next(self@) is Some,
            r matches Some(f) ==> (Some(f.source) == search_next(self@) && f.title@ == self@.title
                && f.artist@ == self@.artist),
    {
        let n = self.asked;
        if self.title.as_str().is_empty() || self.found || n >= self.sources.len() {
            None
        } else {
            Some(
                LyricsFetch {
                    source: self.sources[n],
                    title: self.title.clone(),
                    artist: self.artist.clone(),
                },
            )
        }
    }

    /// Hands in the answer of the fetch that [`LyricsSearch::next_fetch`] asked for.
    pub fn feed(&mut self, answer: Option<LyricsData>)
        requires
            old(self).wf(),
            search_next(old(self)@) is Some,
        ensures
            final(self).wf(),
            final(self)@ == (SearchView { fed: old(self)@.fed.push(opt_lyrics(answer)), ..old(self)@ }),
    {
        let ghost fed = self.fed@;
        let ghost x = opt_lyrics(answer);
        let total = self.sources.len();
        assert(self.asked < total);
        proof {
            assert(fed.push(x).drop_last() =~= fed);
        }
        match answer {
            Some(d) => {
                if d.lines.len() > 0 {
                    self.best = Some(d);
                    self.found = true;
                } else if self.best.is_none() && d.duration_ms > 0 {
                    self.best = Some(d);
                }
            },
            None => {},
        }
        self.asked = self.asked + 1;
        self.fed = Ghost(fed.push(x));
    }

    /// The lyrics found: the first answer with lines, else the first with a duration.
    pub fn result(self) -> (r: Option<LyricsData>)
        requires
            self.wf(),
        ensures
            opt_lyrics(r) == search_result(self@),
    {
        self.best
    }
}

/// Starts a search for a track over the given sources; an empty title asks no source.
pub fn fetch_lyrics_with(title: &str, artist: &str, sources: &[Source]) -> (r: LyricsSearch)
    ensures
        r.wf(),
        r@ == (SearchView {
            title: title@,
            artist: artist@,
            sources: sources@,
            fed: Seq::empty(),
        }),
{
    let mut v: Vec<Source> = Vec::new();
    let mut i: usize = 0;
    while i < sources.len()
        invariant
            i <= sources.len(),
            v@ == sources@.take(i as int),
        decreases sources.len() - i,
    {
        v.push(sources[i]);
        i += 1;
        proof {
            assert(v@ =~= sources@.take(i as int));
        }
    }
    proof {
        assert(sources@.take(i as int) =~= sources@);
    }
    LyricsSearch {
        title: title.to_owned(),
        artist: artist.to_owned(),
        sources: v,
        asked: 0,
        best: None,
        found: false,
        fed: Ghost(Seq::empty()),
    }
}

/// Starts a search for a track over the sources its media source calls for.
pub fn fetch_lyrics_for(source_app_id: &str, title: &str, artist: &str) -> (r: LyricsSearch)
    ensures
        r.wf(),
        r@ == (SearchView {
            title: title@,
            artist: artist@,
            sources: spec_sources_for(source_app_id@),
            fed: Seq::empty(),
        }),
{
    let sources = sources_for(source_app_id);
    fetch_lyrics_with(title, artist, sources.as_slice())
}

} // verus!

verus! {

/// Whether an answer carries lyric lines.
pub open spec fn has_lines(r: Option<LyricsView>) -> bool {
    r matches Some(d) && d.lines.len() > 0
}

/// Whether an answer carries a positive duration.
pub open spec fn is_timed(r: Option<LyricsView>) -> bool {
    r matches Some(d) && d.duration_ms > 0
}

proof fn lemma_first_with_lines(rs: Seq<Option<LyricsView>>)
    ensures
        first_with_lines(rs) is Some ==> has_lines(first_with_lines(rs)),
        first_with_lines(rs) is None <==> forall|j: int| 0 <= j < rs.len() ==> !has_lines(#[trigger] rs[j]),
    decreases rs.len(),
{
    if rs.len() > 0 {
        lemma_first_with_lines(rs.drop_last());
        assert forall|j: int| 0 <= j < rs.len() - 1 implies #[trigger] rs[j] == rs.drop_last()[j] by {}
        if first_with_lines(rs) is None {
            assert forall|j: int| 0 <= j < rs.len() implies !has_lines(#[trigger] rs[j]) by {
                if j < rs.len() - 1 {
                    assert(rs.drop_last()[j] == rs[j]);
                }
            }
        }
    }
}

/// A source that answers with lyric lines ends the search, and its answer is the result.
pub proof fn law_lines_end_the_search(v: SearchView, answer: LyricsView)
    requires
        search_next(v) is Some,
        answer.lines.len() > 0,
    ensures
        ({
            let w = SearchView { fed: v.fed.push(Some(answer)), ..v };
            search_next(w) is None && search_result(w) == Some(answer)
        }),
{
    assert(v.fed.push(Some(answer)).drop_last() =~= v.fed);
}

/// An answer without lyric lines does not end the search: the next source is asked.
pub proof fn law_no_lines_asks_the_next_source(v: SearchView, answer: Option<LyricsView>)
    requires
        search_next(v) is Some,
        !has_lines(answer),
        v.fed.len() + 1 < v.sources.len(),
    ensures
        search_next(SearchView { fed: v.fed.push(answer), ..v }) == Some(v.sources[v.fed.len() + 1int]),
{
    assert(v.fed.push(answer).drop_last() =~= v.fed);
}

/// Lyric lines are preferred wherever they come: when some answer has lines, the result
/// has lines.
pub proof fn law_lines_preferred(rs: Seq<Option<LyricsView>>, i: int)
    requires
        0 <= i < rs.len(),
        has_lines(rs[i]),
    ensures
        has_lines(lyrics_choice(rs)),
{
    lemma_first_with_lines(rs);
}

/// A duration-only answer is a fallback: when no answer has lines, the result is the
/// first answer with a duration.
pub proof fn law_first_timed_is_the_fallback(rs: Seq<Option<LyricsView>>, i: int)
    requires
        0 <= i < rs.len(),
        forall|j: int| 0 <= j < rs.len() ==> !has_lines(#[trigger] rs[j]),
        is_timed(rs[i]),
        forall|j: int| 0 <= j < i ==> !is_timed(#[trigger] rs[j]),
    ensures
        lyrics_choice(rs) == rs[i],
    decreases rs.len(),
{
    lemma_first_with_lines(rs);
    if i < rs.len() - 1 {
        let p = rs.drop_last();
        assert forall|j: int| 0 <= j < p.len() implies !has_lines(#[trigger] p[j]) by {
            assert(p[j] == rs[j]);
        }
        assert forall|j: int| 0 <= j < i implies !is_timed(#[trigger] p[j]) by {
            assert(p[j] == rs[j]);
        }
        assert(p[i] == rs[i]);
        law_first_timed_is_the_fallback(p, i);
        lemma_first_with_lines(p);
    } else {
        lemma_first_timed_none(rs.drop_last(), i);
    }
}

proof fn lemma_first_timed_none(rs: Seq<Option<LyricsView>>, n: int)
    requires
        n == rs.len(),
        forall|j: int| 0 <= j < n ==> !is_timed(#[trigger] rs[j]),
    ensures
        first_timed(rs) is None,
    decreases rs.len(),
{
    if rs.len() > 0 {
        let p = rs.drop_last();
        assert forall|j: int| 0 <= j < p.len() implies !is_timed(#[trigger] p[j]) by {
            assert(p[j] == rs[j]);
        }
        lemma_first_timed_none(p, n - 1);
        assert(!is_timed(rs[n - 1]));
    }
}

/// A search run to its end, each source answering as `answers` says: the search after
/// every source it asks has answered.
pub open spec fn run_search(v: SearchView, answers: spec_fn(Source) -> Option<LyricsView>) -> SearchView
    decreases v.sources.len() - v.fed.len(),
{
    match search_next(v) {
        Some(src) => if v.fed.len() < v.sources.len() {
            run_search(SearchView { fed: v.fed.push(answers(src)), ..v }, answers)
        } else {
            v
        },
        None => v,
    }
}

proof fn lemma_first_with_lines_prefix(rs: Seq<Option<LyricsView>>, m: int)
    requires
        0 <= m <= rs.len(),
        first_with_lines(rs.take(m)) is Some,
    ensures
        first_with_lines(rs) == first_with_lines(rs.take(m)),
    decreases rs.len(),
{
    if m == rs.len() {
        assert(rs.take(m) =~= rs);
    } else {
        assert(rs.drop_last().take(m) =~= rs.take(m));
        lemma_first_with_lines_prefix(rs.drop_last(), m);
    }
}

proof fn lemma_run_search(
    v: SearchView,
    answers: spec_fn(Source) -> Option<LyricsView>,
    rs: Seq<Option<LyricsView>>,
)
    requires
        v.title.len() > 0,
        v.fed.len() <= v.sources.len(),
        rs == v.sources.map_values(|s: Source| answers(s)),
        v.fed == rs.take(v.fed.len() as int),
        forall|j: int| 0 <= j < v.fed.len() ==> !has_lines(#[trigger] v.fed[j]),
    ensures
        ({
            let w = run_search(v, answers);
            &&& w.fed.len() <= rs.len()
            &&& w.fed == rs.take(w.fed.len() as int)
            &&& search_next(w) is None
            &&& search_result(w) == lyrics_choice(rs)
            &&& forall|j: int| 0 <= j < w.fed.len() - 1 ==> !has_lines(#[trigger] w.fed[j])
            &&& w.fed.len() < rs.len() ==> has_lines(w.fed.last())
        }),
    decreases v.sources.len() - v.fed.len(),
{
    lemma_first_with_lines(v.fed);
    let n = v.fed.len() as int;
    if n >= v.sources.len() {
        assert(rs.take(n) =~= rs);
    } else {
        let src = v.sources[n];
        let x = answers(src);
        let v2 = SearchView { fed: v.fed.push(x), ..v };
        assert(rs[n] == x);
        assert(v2.fed =~= rs.take(n + 1));
        assert(v2.fed.drop_last() =~= v.fed);
        if has_lines(x) {
            assert(first_with_lines(v2.fed) == Some(x->0));
            lemma_first_with_lines_prefix(rs, n + 1);
            assert(run_search(v2, answers) == v2);
        } else {
            assert forall|j: int| 0 <= j < v2.fed.len() implies !has_lines(#[trigger] v2.fed[j]) by {
                if j < n {
                    assert(v2.fed[j] == v.fed[j]);
                }
            }
            lemma_run_search(v2, answers, rs);
        }
    }
}

/// A whole search for a non-empty title, each source answering as `answers` says: the
/// sources are asked in order, each only while none before it gave lyric lines, and
/// the result is the first answer with lines, else the first with a duration, else
/// nothing.
pub proof fn law_search_run(v: SearchView, answers: spec_fn(Source) -> Option<LyricsView>)
    requires
        v.title.len() > 0,
        v.fed.len() == 0,
    ensures
        ({
            let rs = v.sources.map_values(|s: Source| answers(s));
            let w = run_search(v, answers);
            &&& search_next(w) is None
            &&& search_result(w) == lyrics_choice(rs)
            &&& w.fed == rs.take(w.fed.len() as int)
            &&& forall|j: int| 0 <= j < w.fed.len() - 1 ==> !has_lines(#[trigger] w.fed[j])
            &&& w.fed.len() < rs.len() ==> has_lines(w.fed.last())
        }),
{
    let rs = v.sources.map_values(|s: Source| answers(s));
    assert(v.fed =~= rs.take(0));
    lemma_run_search(v, answers, rs);
}

} // verus!

verus! {

/// The relevance check does not depend on which text is the query.
pub proof fn law_relevance_is_symmetric(a: Seq<char>, b: Seq<char>)
    ensures
        related(norm_title(a), norm_title(b)) == related(norm_title(b), norm_title(a)),
{
}

} // verus!

verus! {

/// A search for an empty title asks no source and finds nothing.
pub proof fn law_empty_title_asks_no_source(v: SearchView)
    requires
        v.title.len() == 0,
    ensures
        search_next(v) is None,
        v.fed.len() == 0 ==> search_result(v) is None,
{
}

} // verus!
