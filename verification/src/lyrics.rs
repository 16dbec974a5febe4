//! LRC lyric parsing (synced `[mm:ss.xx] text` lines) and line lookup.
use vstd::prelude::*;
use crate::text::{
    lemma_first_index_of_bounds, chars_of, decimal_millis, find_char, first_index_of, parse_decimal_millis, trim, trim_range,
};

verus! {

broadcast use vstd::string::group_string_axioms;

/// A single timestamped lyric line.
#[derive(Debug, Clone)]
pub struct LrcLine {
    /// Timestamp in milliseconds.
    pub time_ms: i64,
    /// The lyric text for this line.
    pub text: String,
}

impl View for LrcLine {
    type V = (int, Seq<char>);

    open spec fn view(&self) -> (int, Seq<char>) {
        (self.time_ms as int, self.text@)
    }
}

/// Parsed lyrics: synced (with timestamps), unsynced (plain text), or none
/// at all (`NoLyrics`).
#[derive(Debug, Clone)]
pub enum Lyrics {
    Synced(Vec<LrcLine>),
    Unsynced(String),
    NoLyrics,
}

/// What lyrics denote.
#[verifier::ext_equal]
pub enum LyricsView {
    Synced(Seq<(int, Seq<char>)>),
    Unsynced(Seq<char>),
    NoLyrics,
}

impl View for Lyrics {
    type V = LyricsView;

    open spec fn view(&self) -> LyricsView {
        match self {
            Lyrics::Synced(lines) => LyricsView::Synced(lines_view(lines@)),
            Lyrics::Unsynced(t) => LyricsView::Unsynced(t@),
            Lyrics::NoLyrics => LyricsView::NoLyrics,
        }
    }
}

/// The views of a sequence of lines.
pub open spec fn lines_view(s: Seq<LrcLine>) -> Seq<(int, Seq<char>)> {
    s.map_values(|l: LrcLine| l@)
}

/// A timestamp `minutes:seconds` in milliseconds: exactly one colon, both
/// sides decimal numbers (see `decimal_millis`).
pub open spec fn timestamp_millis(tag: Seq<char>) -> Option<int> {
    let c = first_index_of(tag, ':');
    if c >= tag.len() {
        None
    } else {
        let after = tag.subrange(c + 1, tag.len() as int);
        if first_index_of(after, ':') < after.len() {
            None
        } else {
            match (decimal_millis(tag.subrange(0, c)), decimal_millis(after)) {
                (Some(m), Some(s)) => Some(m * 60 + s),
                _ => None,
            }
        }
    }
}

/// The lyric entry of one (trimmed) line: the first bracketed tag that is a
/// timestamp, with the trimmed text after it, if that text is not empty.
/// Bracketed tags that are not timestamps (`[ar:Artist]`) are skipped.
pub open spec fn line_entry(rest: Seq<char>) -> Option<(int, Seq<char>)>
    decreases rest.len(),
{
    let bs = first_index_of(rest, '[');
    if bs >= rest.len() || bs < 0 {
        None
    } else {
        let after = rest.subrange(bs, rest.len() as int);
        let rel = first_index_of(after, ']');
        if rel >= after.len() || rel < 0 {
            None
        } else {
            let be = bs + rel;
            let tag = rest.subrange(bs + 1, be);
            let tail = rest.subrange(be + 1, rest.len() as int);
            match timestamp_millis(tag) {
                Some(t) => if trim(tail).len() > 0 {
                    Some((t, trim(tail)))
                } else {
                    None
                },
                None => line_entry(tail),
            }
        }
    }
}

/// The entries of every line of `s` (lines end at `'\n'`), in file order.
pub open spec fn lrc_entries(s: Seq<char>) -> Seq<(int, Seq<char>)>
    decreases s.len(),
{
    let k = first_index_of(s, '\n');
    let here = match line_entry(trim(s.subrange(0, k))) {
        Some(e) => seq![e],
        None => Seq::empty(),
    };
    if k >= s.len() || k < 0 {
        here
    } else {
        here + lrc_entries(s.subrange(k + 1, s.len() as int))
    }
}

/// Position of the first entry of `s` whose time is later than `t`.
pub open spec fn first_later(s: Seq<(int, Seq<char>)>, t: int) -> int
    decreases s.len(),
{
    if s.len() == 0 {
        0
    } else if s[0].0 > t {
        0
    } else {
        1 + first_later(s.drop_first(), t)
    }
}

/// Stable sort by time: each entry is inserted after every entry that is
/// not later than it.
pub open spec fn sort_by_time(s: Seq<(int, Seq<char>)>) -> Seq<(int, Seq<char>)>
    decreases s.len(),
{
    if s.len() == 0 {
        s
    } else {
        let sorted = sort_by_time(s.drop_last());
        sorted.insert(first_later(sorted, s.last().0), s.last())
    }
}

/// Entries in order of non-decreasing time.
pub open spec fn times_sorted(s: Seq<(int, Seq<char>)>) -> bool {
    forall|i: int, j: int| 0 <= i <= j < s.len() ==> s[i].0 <= s[j].0
}

/// What `parse_lrc` returns for `content`.
pub open spec fn parsed_lrc(content: Seq<char>) -> Seq<(int, Seq<char>)> {
    sort_by_time(lrc_entries(content))
}

proof fn lemma_first_later_bounds(s: Seq<(int, Seq<char>)>, t: int)
    ensures
        0 <= first_later(s, t) <= s.len(),
        forall|j: int| 0 <= j < first_later(s, t) ==> s[j].0 <= t,
        first_later(s, t) < s.len() ==> s[first_later(s, t)].0 > t,
    decreases s.len(),
{
    if s.len() > 0 && s[0].0 <= t {
        lemma_first_later_bounds(s.drop_first(), t);
        assert forall|j: int| 0 <= j < first_later(s, t) implies s[j].0 <= t by {
            if j > 0 {
                assert(s[j] == s.drop_first()[j - 1]);
            }
        }
    }
}

/// Parsed lyrics are in order of time and hold exactly the entries of the
/// file's lines (as a multiset).
pub proof fn lemma_parsed_sorted(content: Seq<char>)
    ensures
        times_sorted(parsed_lrc(content)),
        parsed_lrc(content).to_multiset() == lrc_entries(content).to_multiset(),
{
    lemma_sort_by_time(lrc_entries(content));
}

/// The stable sort by time is sorted and keeps the entries.
pub proof fn lemma_sort_by_time(s: Seq<(int, Seq<char>)>)
    ensures
        times_sorted(sort_by_time(s)),
        sort_by_time(s).to_multiset() == s.to_multiset(),
    decreases s.len(),
{
    broadcast use vstd::seq_lib::group_seq_properties;
    if s.len() > 0 {
        let sorted = sort_by_time(s.drop_last());
        lemma_sort_by_time(s.drop_last());
        let x = s.last();
        let k = first_later(sorted, x.0);
        lemma_first_later_bounds(sorted, x.0);
        let r = sorted.insert(k, x);
        assert forall|i: int, j: int| 0 <= i <= j < r.len() implies r[i].0 <= r[j].0 by {
            if i < k && j < k {
                assert(r[i] == sorted[i] && r[j] == sorted[j]);
            } else if i < k && j == k {
                assert(r[i] == sorted[i]);
            } else if i < k {
                assert(r[i] == sorted[i] && r[j] == sorted[j - 1]);
            } else if i == k && j > k {
                assert(r[j] == sorted[j - 1]);
                assert(sorted[k].0 > x.0);
                assert(sorted[k].0 <= sorted[j - 1].0);
            } else if i > k {
                assert(r[i] == sorted[i - 1] && r[j] == sorted[j - 1]);
            }
        }
        assert(s == s.drop_last().push(x));
        assert(s.to_multiset() == s.drop_last().to_multiset().insert(x));
        assert(r.to_multiset() == sorted.to_multiset().insert(x));
    }
}

proof fn lemma_first_later_is(s: Seq<(int, Seq<char>)>, t: int, k: int)
    requires
        0 <= k <= s.len(),
        forall|j: int| 0 <= j < k ==> s[j].0 <= t,
        k < s.len() ==> s[k].0 > t,
    ensures
        first_later(s, t) == k,
    decreases k,
{
    if k > 0 {
        lemma_first_later_is(s.drop_first(), t, k - 1);
    }
}

/// Parses a timestamp tag `v[lo..hi]` (see `timestamp_millis`).
fn parse_timestamp(v: &Vec<char>, lo: usize, hi: usize) -> (r: Option<i64>)
    requires
        lo <= hi <= v.len(),
    ensures
        match timestamp_millis(v@.subrange(lo as int, hi as int)) {
            Some(t) => r matches Some(x) && x == t,
            None => r is None,
        },
{
    let ghost tag = v@.subrange(lo as int, hi as int);
    let c = find_char(v, lo, hi, ':');
    if c >= hi {
        return None;
    }
    let c2 = find_char(v, c + 1, hi, ':');
    proof {
        assert(tag.subrange(c - lo + 1, tag.len() as int) =~= v@.subrange(c + 1, hi as int));
        assert(tag.subrange(0, c - lo) =~= v@.subrange(lo as int, c as int));
    }
    if c2 < hi {
        return None;
    }
    let m = match parse_decimal_millis(v, lo, c) {
        Some(m) => m,
        None => { return None; },
    };
    let s = match parse_decimal_millis(v, c + 1, hi) {
        Some(s) => s,
        None => { return None; },
    };
    Some(m * 60 + s)
}

/// Finds the lyric entry of the trimmed line `v[lo..hi]` (see `line_entry`).
fn parse_line(content: &str, v: &Vec<char>, lo: usize, hi: usize) -> (r: Option<LrcLine>)
    requires
        v@ == content@,
        lo <= hi <= v.len(),
    ensures
        match line_entry(v@.subrange(lo as int, hi as int)) {
            Some(e) => r matches Some(l) && l@ == e,
            None => r is None,
        },
{
    let mut r = lo;
    loop
        invariant
            v@ == content@,
            lo <= r <= hi <= v.len(),
            line_entry(v@.subrange(lo as int, hi as int)) == line_entry(v@.subrange(r as int, hi as int)),
        decreases hi - r,
    {
        let ghost rest = v@.subrange(r as int, hi as int);
        let bs = find_char(v, r, hi, '[');
        proof {
            lemma_first_index_of_bounds(rest, '[');
        }
        if bs >= hi {
            return None;
        }
        let be = find_char(v, bs, hi, ']');
        proof {
            assert(rest.subrange(bs - r, rest.len() as int) =~= v@.subrange(bs as int, hi as int));
            lemma_first_index_of_bounds(v@.subrange(bs as int, hi as int), ']');
            assert(rest[bs - r] == '[');
        }
        if be >= hi {
            return None;
        }
        proof {
            assert(v@.subrange(bs as int, hi as int)[0] == '[');
            assert(be > bs);
            assert(rest.subrange(bs - r + 1, be - r) =~= v@.subrange(bs + 1, be as int));
            assert(rest.subrange(be - r + 1, rest.len() as int) =~= v@.subrange(be + 1, hi as int));
        }
        match parse_timestamp(v, bs + 1, be) {
            Some(t) => {
                let (a, b) = trim_range(v, be + 1, hi);
                if a < b {
                    let piece = content.substring_char(a, b);
                    let text = piece.to_string();
                    proof {
                        assert(piece@ == v@.subrange(a as int, b as int));
                        assert(text@ == piece@);
                        let tail = rest.subrange(be - r + 1, rest.len() as int);
                        assert(tail == v@.subrange(be + 1, hi as int));
                        assert(trim(tail) == text@);
                        let bs_s = first_index_of(rest, '[');
                        assert(bs_s == bs - r);
                        let after = rest.subrange(bs_s, rest.len() as int);
                        assert(first_index_of(after, ']') == be - bs);
                        assert(timestamp_millis(rest.subrange(bs_s + 1, bs_s + (be - bs))) == Some(t as int));
                        assert(line_entry(rest) == Some((t as int, text@)));
                    }
                    return Some(LrcLine { time_ms: t, text });
                } else {
                    return None;
                }
            },
            None => {
                r = be + 1;
            },
        }
    }
}

/// Inserts `line` after every line of `sorted` that is not later than it.
fn insert_by_time(sorted: &mut Vec<LrcLine>, line: LrcLine)
    ensures
        lines_view(final(sorted)@) == lines_view(old(sorted)@).insert(
            first_later(lines_view(old(sorted)@), line@.0),
            line@,
        ),
{
    let ghost s = lines_view(sorted@);
    let mut p: usize = 0;
    while p < sorted.len()
        invariant
            s == lines_view(sorted@),
            p <= sorted.len(),
            forall|j: int| 0 <= j < p ==> s[j].0 <= line.time_ms,
        ensures
            p <= sorted.len(),
            forall|j: int| 0 <= j < p ==> s[j].0 <= line.time_ms,
            p < sorted.len() ==> s[p as int].0 > line.time_ms,
        decreases sorted.len() - p,
    {
        if sorted[p].time_ms > line.time_ms {
            break;
        }
        p = p + 1;
    }
    proof {
        lemma_first_later_is(s, line@.0, p as int);
    }
    sorted.insert(p, line);
    assert(lines_view(sorted@) =~= s.insert(p as int, line@));
}

/// Parses LRC text into timed lines, sorted by time (stably: lines with equal
/// times keep their file order).
pub fn parse_lrc(content: &str) -> (r: Vec<LrcLine>)
    ensures
        lines_view(r@) == parsed_lrc(content@),
{
    let v = chars_of(content);
    let n = v.len();
    let mut sorted: Vec<LrcLine> = Vec::new();
    let ghost mut entries: Seq<(int, Seq<char>)> = Seq::empty();
    let mut start: usize = 0;
    proof {
        assert(v@.subrange(0, n as int) =~= v@);
    }
    loop
        invariant_except_break
            entries + lrc_entries(v@.subrange(start as int, n as int)) == lrc_entries(v@),
        invariant
            v@ == content@,
            n == v.len(),
            start <= n,
            lines_view(sorted@) == sort_by_time(entries),
        ensures
            entries == lrc_entries(v@),
            lines_view(sorted@) == sort_by_time(entries),
        decreases n - start,
    {
        let ghost rest = v@.subrange(start as int, n as int);
        let k = find_char(&v, start, n, '\n');
        let (a, b) = trim_range(&v, start, k);
        proof {
            assert(rest.subrange(0, k - start) =~= v@.subrange(start as int, k as int));
            if k < n {
                assert(rest.subrange(k - start + 1, rest.len() as int) =~= v@.subrange(k + 1, n as int));
            }
        }
        proof {
            lemma_first_index_of_bounds(rest, '\n');
        }
        let found = parse_line(content, &v, a, b);
        let ghost here = match line_entry(trim(rest.subrange(0, k - start))) {
            Some(e) => seq![e],
            None => Seq::<(int, Seq<char>)>::empty(),
        };
        let ghost old_entries = entries;
        match found {
            Some(line) => {
                proof {
                    let e = line@;
                    assert((entries.push(e)).drop_last() =~= entries);
                    entries = entries.push(e);
                }
                insert_by_time(&mut sorted, line);
            },
            None => {},
        }
        proof {
            assert(entries =~= old_entries + here);
        }
        if k >= n {
            proof {
                assert(lrc_entries(rest) == here);
                assert(entries =~= lrc_entries(v@));
            }
            break;
        }
        proof {
            assert(lrc_entries(rest) == here + lrc_entries(v@.subrange(k + 1, n as int)));
        }
        start = k + 1;
    }
    sorted
}

/// Finds the index of the current line for a playback position: a line
/// whose time is not after the position and whose successor (if any) is.
/// On lines sorted by time this is the last line not after the position.
pub fn current_line_index(lines: &Vec<LrcLine>, position_ms: i64) -> (r: Option<usize>)
    ensures
        match r {
            Some(i) => {
                &&& i < lines.len()
                &&& lines@[i as int].time_ms <= position_ms
                &&& i + 1 < lines.len() ==> lines@[i + 1].time_ms > position_ms
            },
            None => lines.len() == 0 || lines@[0].time_ms > position_ms,
        },
        times_sorted(lines_view(lines@)) ==> match r {
            Some(i) => forall|j: int| i < j < lines.len() ==> lines@[j].time_ms > position_ms,
            None => forall|j: int| 0 <= j < lines.len() ==> lines@[j].time_ms > position_ms,
        },
{
    if lines.len() == 0 {
        return None;
    }
    let mut lo: usize = 0;
    let mut hi: usize = lines.len();
    while lo < hi
        invariant
            lo <= hi <= lines.len(),
            lo > 0 ==> lines@[lo - 1].time_ms <= position_ms,
            hi < lines.len() ==> lines@[hi as int].time_ms > position_ms,
            times_sorted(lines_view(lines@)) ==> forall|j: int| hi <= j < lines.len() ==> lines@[j].time_ms > position_ms,
        decreases hi - lo,
    {
        let mid = lo + (hi - lo) / 2;
        if lines[mid].time_ms <= position_ms {
            lo = mid + 1;
        } else {
            proof {
                if times_sorted(lines_view(lines@)) {
                    assert forall|j: int| mid <= j < lines.len() implies lines@[j].time_ms > position_ms by {
                        assert(lines_view(lines@)[mid as int].0 <= lines_view(lines@)[j].0);
                    }
                }
            }
            hi = mid;
        }
    }
    if lo > 0 {
        Some(lo - 1)
    } else {
        None
    }
}

/// Lyrics for the text of a sidecar `.lrc` file: synced when some line has a
/// timestamp, otherwise the raw text when it is not blank, otherwise none.
pub fn lyrics_from_content(content: &str) -> (r: Lyrics)
    ensures
        parsed_lrc(content@).len() > 0 ==> (r matches Lyrics::Synced(lines) && lines_view(lines@) == parsed_lrc(content@)),
        parsed_lrc(content@).len() == 0 && trim(content@).len() > 0 ==> (r matches Lyrics::Unsynced(t) && t@ == content@),
        parsed_lrc(content@).len() == 0 && trim(content@).len() == 0 ==> r is NoLyrics,
{
    let lines = parse_lrc(content);
    if lines.len() > 0 {
        return Lyrics::Synced(lines);
    }
    let v = chars_of(content);
    let (a, b) = trim_range(&v, 0, v.len());
    proof {
        assert(v@.subrange(0, v.len() as int) =~= v@);
    }
    if a < b {
        Lyrics::Unsynced(content.to_string())
    } else {
        Lyrics::NoLyrics
    }
}

} // verus!
