//! Listening statistics: aggregates over the play history.
//!
//! Reading the history from the database, and turning day numbers into
//! calendar dates, is the application's job; this module computes the
//! totals, the most played songs, the minutes listened per day and the
//! current streak of listening days.
use vstd::prelude::*;
use crate::text::str_eq;

verus! {

broadcast use vstd::string::group_string_axioms;

/// Seconds in a day.
pub const SECS_PER_DAY: i64 = 86400;

/// The most played songs that the statistics list.
pub const TOP_SONGS: usize = 20;

/// The days of the per-day listening list.
pub const DAYS_KEPT: usize = 365;

/// A play of the history, reduced to what the statistics read.
#[derive(Debug, Clone)]
pub struct PlayRecord {
    pub song_id: String,
    /// Start of the play, in seconds since 1970-01-01 UTC.
    pub started_at: i64,
    pub listened_secs: u32,
    pub was_skipped: bool,
}

/// What a play denotes.
pub struct PlayView {
    pub song_id: Seq<char>,
    pub started_at: i64,
    pub listened_secs: u32,
    pub was_skipped: bool,
}

impl View for PlayRecord {
    type V = PlayView;

    open spec fn view(&self) -> PlayView {
        PlayView {
            song_id: self.song_id@,
            started_at: self.started_at,
            listened_secs: self.listened_secs,
            was_skipped: self.was_skipped,
        }
    }
}

/// The views of a list of plays.
pub open spec fn plays_view(s: Seq<PlayRecord>) -> Seq<PlayView> {
    s.map_values(|p: PlayRecord| p@)
}

/// Aggregated listening statistics.
#[derive(Debug, Clone)]
pub struct ListeningStats {
    /// Plays counted (repeats included).
    pub total_plays: u32,
    /// Seconds actually listened.
    pub total_listened_secs: u64,
    /// Plays that were skips.
    pub total_skips: u32,
    /// The most played songs: (song id, plays), most played first.
    pub top_songs: Vec<(String, u32)>,
    /// Minutes listened per day: (day number since 1970-01-01, minutes),
    /// oldest first.
    pub daily_minutes: Vec<(i64, u32)>,
    /// Consecutive days with listening, ending today.
    pub streak_days: u32,
}

/// The day number (since 1970-01-01, UTC) of a time in seconds.
pub open spec fn day_of(ts: int) -> int {
    ts / 86400
}

/// Seconds listened over all plays.
pub open spec fn listened_total(s: Seq<PlayView>) -> nat
    decreases s.len(),
{
    if s.len() == 0 {
        0
    } else {
        listened_total(s.drop_last()) + s.last().listened_secs as nat
    }
}

/// Plays that were skips.
pub open spec fn skip_count(s: Seq<PlayView>) -> nat
    decreases s.len(),
{
    if s.len() == 0 {
        0
    } else {
        skip_count(s.drop_last()) + if s.last().was_skipped { 1nat } else { 0nat }
    }
}

/// Plays of the song `id`.
pub open spec fn plays_of(s: Seq<PlayView>, id: Seq<char>) -> nat
    decreases s.len(),
{
    if s.len() == 0 {
        0
    } else {
        plays_of(s.drop_last(), id) + if s.last().song_id == id { 1nat } else { 0nat }
    }
}

/// The ids of the songs played, each once, in the order of their first play.
pub open spec fn first_seen(s: Seq<PlayView>) -> Seq<Seq<char>>
    decreases s.len(),
{
    if s.len() == 0 {
        Seq::empty()
    } else {
        let t = first_seen(s.drop_last());
        if t.contains(s.last().song_id) {
            t
        } else {
            t.push(s.last().song_id)
        }
    }
}

/// Each song played with its number of plays, in the order of first play.
pub open spec fn song_counts(s: Seq<PlayView>) -> Seq<(Seq<char>, nat)> {
    first_seen(s).map_values(|id: Seq<char>| (id, plays_of(s, id)))
}

/// `x` inserted into `t` after every entry with at least as many plays.
pub open spec fn insert_by_count(t: Seq<(Seq<char>, nat)>, x: (Seq<char>, nat)) -> Seq<(Seq<char>, nat)>
    decreases t.len(),
{
    if t.len() == 0 {
        seq![x]
    } else if x.1 > t.last().1 {
        insert_by_count(t.drop_last(), x).push(t.last())
    } else {
        t.push(x)
    }
}

/// The entries stably sorted by plays, most played first.
pub open spec fn sort_by_count(t: Seq<(Seq<char>, nat)>) -> Seq<(Seq<char>, nat)>
    decreases t.len(),
{
    if t.len() == 0 {
        t
    } else {
        insert_by_count(sort_by_count(t.drop_last()), t.last())
    }
}

/// The most played songs: at most twenty, most played first, songs with
/// equal plays in the order of their first play.
pub open spec fn top_songs(s: Seq<PlayView>) -> Seq<(Seq<char>, nat)> {
    let sorted = sort_by_count(song_counts(s));
    if sorted.len() > 20 {
        sorted.take(20)
    } else {
        sorted
    }
}

/// Inserting by count keeps the entries ordered, most played first, and
/// keeps every entry.
pub proof fn lemma_insert_by_count(t: Seq<(Seq<char>, nat)>, x: (Seq<char>, nat))
    requires
        forall|i: int, j: int| 0 <= i <= j < t.len() ==> t[i].1 >= t[j].1,
    ensures
        forall|i: int, j: int|
            0 <= i <= j < insert_by_count(t, x).len() ==> insert_by_count(t, x)[i].1 >= insert_by_count(t, x)[j].1,
        insert_by_count(t, x).to_multiset() == t.to_multiset().insert(x),
    decreases t.len(),
{
    broadcast use vstd::seq_lib::group_seq_properties;
    if t.len() > 0 {
        assert(t == t.drop_last().push(t.last()));
        if x.1 > t.last().1 {
            let u = insert_by_count(t.drop_last(), x);
            lemma_insert_by_count(t.drop_last(), x);
            assert(t.drop_last().to_multiset().insert(x).insert(t.last()) =~= t.drop_last().to_multiset().insert(
                t.last(),
            ).insert(x));
            assert forall|i: int| 0 <= i < u.len() implies u[i].1 >= t.last().1 by {
                assert(u.to_multiset().count(u[i]) > 0);
                if u[i] != x {
                    assert(t.drop_last().to_multiset().count(u[i]) > 0);
                    let m = choose|m: int| 0 <= m < t.drop_last().len() && t.drop_last()[m] == u[i];
                    assert(t[m] == u[i]);
                }
            }
        }
    }
}

/// Sorting by count orders the entries, most played first, and keeps them.
pub proof fn lemma_sort_by_count(t: Seq<(Seq<char>, nat)>)
    ensures
        forall|i: int, j: int| 0 <= i <= j < sort_by_count(t).len() ==> sort_by_count(t)[i].1 >= sort_by_count(t)[j].1,
        sort_by_count(t).to_multiset() == t.to_multiset(),
    decreases t.len(),
{
    broadcast use vstd::seq_lib::group_seq_properties;
    if t.len() > 0 {
        lemma_sort_by_count(t.drop_last());
        lemma_insert_by_count(sort_by_count(t.drop_last()), t.last());
        assert(t == t.drop_last().push(t.last()));
    }
}

/// The most played songs come most played first, and each is listed with
/// its number of plays.
pub proof fn lemma_top_songs(s: Seq<PlayView>)
    ensures
        forall|i: int, j: int| 0 <= i <= j < top_songs(s).len() ==> top_songs(s)[i].1 >= top_songs(s)[j].1,
        forall|k: int| 0 <= k < top_songs(s).len() ==> (#[trigger] top_songs(s)[k]).1 == plays_of(s, top_songs(s)[k].0),
        top_songs(s).len() <= 20,
{
    broadcast use vstd::seq_lib::group_seq_properties;
    let c = song_counts(s);
    lemma_sort_by_count(c);
    let sorted = sort_by_count(c);
    assert forall|k: int| 0 <= k < top_songs(s).len() implies (#[trigger] top_songs(s)[k]).1 == plays_of(
        s,
        top_songs(s)[k].0,
    ) by {
        let e = top_songs(s)[k];
        assert(sorted[k] == e);
        assert(sorted.to_multiset().count(e) > 0);
        assert(c.to_multiset().count(e) > 0);
        assert(c.contains(e));
        let m = choose|m: int| 0 <= m < c.len() && c[m] == e;
        assert(c[m] == (first_seen(s)[m], plays_of(s, first_seen(s)[m])));
    }
}

/// Some play started on day `d`.
pub open spec fn has_day(s: Seq<PlayView>, d: int) -> bool
    decreases s.len(),
{
    s.len() > 0 && (has_day(s.drop_last(), d) || day_of(s.last().started_at as int) == d)
}

/// Seconds listened in the plays started on day `d`.
pub open spec fn day_secs(s: Seq<PlayView>, d: int) -> nat
    decreases s.len(),
{
    if s.len() == 0 {
        0
    } else {
        day_secs(s.drop_last(), d) + if day_of(s.last().started_at as int) == d {
            s.last().listened_secs as nat
        } else {
            0nat
        }
    }
}

/// The per-day list of a history: the last (at most 365) days with plays,
/// oldest first, each with its whole minutes listened (kept in 32 bits).
pub open spec fn is_daily_of(r: Seq<(i64, u32)>, s: Seq<PlayView>) -> bool {
    &&& r.len() <= 365
    &&& forall|i: int, j: int| 0 <= i < j < r.len() ==> r[i].0 < r[j].0
    &&& forall|k: int|
        0 <= k < r.len() ==> has_day(s, #[trigger] r[k].0 as int) && r[k].1 == (day_secs(s, r[k].0 as int)
            / 60) as u32
    &&& forall|d: int|
        has_day(s, d) ==> (exists|k: int| 0 <= k < r.len() && #[trigger] r[k].0 == d) || (r.len() == 365 && d
            < r[0].0)
}

/// Day `d` is in the list with some minutes listened.
pub open spec fn active(daily: Seq<(i64, u32)>, d: int) -> bool {
    exists|k: int| 0 <= k < daily.len() && daily[k].0 == d && daily[k].1 > 0
}

/// `k` is the streak ending on `today`: the `k` days up to today are
/// active and the day before them is not.
pub open spec fn is_streak(daily: Seq<(i64, u32)>, today: int, k: int) -> bool {
    &&& forall|i: int| 0 <= i < k ==> active(daily, #[trigger] (today - i))
    &&& !active(daily, today - k)
}

/// The view of the statistics' top songs.
pub open spec fn top_view(t: Seq<(String, u32)>) -> Seq<(Seq<char>, nat)> {
    t.map_values(|e: (String, u32)| (e.0@, e.1 as nat))
}

proof fn lemma_plays_bound(s: Seq<PlayView>, id: Seq<char>)
    ensures
        plays_of(s, id) <= s.len(),
    decreases s.len(),
{
    if s.len() > 0 {
        lemma_plays_bound(s.drop_last(), id);
    }
}

proof fn lemma_first_seen(s: Seq<PlayView>)
    ensures
        first_seen(s).no_duplicates(),
        forall|id: Seq<char>| #[trigger] first_seen(s).contains(id) <==> plays_of(s, id) > 0,
    decreases s.len(),
{
    if s.len() > 0 {
        let t = first_seen(s.drop_last());
        let x = s.last().song_id;
        lemma_first_seen(s.drop_last());
        if !t.contains(x) {
            assert forall|i: int, j: int| 0 <= i < j < t.push(x).len() implies t.push(x)[i] != t.push(x)[j] by {
                if j == t.len() {
                    assert(t[i] == t.push(x)[i]);
                }
            }
            assert forall|id: Seq<char>| #[trigger] first_seen(s).contains(id) <==> plays_of(s, id) > 0 by {
                if first_seen(s).contains(id) {
                    let k = choose|k: int| 0 <= k < t.push(x).len() && t.push(x)[k] == id;
                    if k < t.len() {
                        assert(t[k] == id);
                        assert(t.contains(id));
                    }
                }
                if plays_of(s, id) > 0 && id != x {
                    assert(t.contains(id));
                    let k = choose|k: int| 0 <= k < t.len() && t[k] == id;
                    assert(t.push(x)[k] == id);
                }
                if id == x {
                    assert(t.push(x)[t.len() as int] == id);
                }
            }
        }
    }
}

proof fn lemma_listened_bound(s: Seq<PlayView>)
    ensures
        listened_total(s) <= s.len() * 0xffff_ffff,
        forall|d: int| #[trigger] day_secs(s, d) <= listened_total(s),
        skip_count(s) <= s.len(),
    decreases s.len(),
{
    if s.len() > 0 {
        lemma_listened_bound(s.drop_last());
        assert forall|d: int| #[trigger] day_secs(s, d) <= listened_total(s) by {
            assert(day_secs(s.drop_last(), d) <= listened_total(s.drop_last()));
        }
    }
}

/// Counts the plays of each song, in the order of first play.
fn count_songs(plays: &[PlayRecord]) -> (r: Vec<(String, u32)>)
    requires
        plays@.len() <= u32::MAX,
    ensures
        top_view(r@) == song_counts(plays_view(plays@)),
{
    let ghost all = plays_view(plays@);
    let mut counts: Vec<(String, u32)> = Vec::new();
    let mut i: usize = 0;
    assert(all.take(0) =~= Seq::<PlayView>::empty());
    assert(top_view(counts@) =~= song_counts(all.take(0)));
    while i < plays.len()
        invariant
            i <= plays@.len() <= u32::MAX,
            all == plays_view(plays@),
            top_view(counts@) == song_counts(all.take(i as int)),
        decreases plays.len() - i,
    {
        let ghost t = all.take(i as int);
        let ghost t2 = all.take(i + 1);
        let ghost e = plays@[i as int]@;
        proof {
            assert(t2.drop_last() =~= t);
            assert(t2.last() == e);
            lemma_first_seen(t);
            lemma_plays_bound(t, e.song_id);
        }
        let id = &plays[i].song_id;
        let mut k: usize = 0;
        let mut found = false;
        while k < counts.len()
            invariant_except_break
                !found,
            invariant
                k <= counts@.len(),
                top_view(counts@) == song_counts(t),
                forall|m: int| 0 <= m < k ==> counts@[m].0@ != e.song_id,
                id@ == e.song_id,
            ensures
                found ==> k < counts@.len() && counts@[k as int].0@ == e.song_id,
                !found ==> k == counts@.len(),
            decreases counts.len() - k,
        {
            if str_eq(counts[k].0.as_str(), id.as_str()) {
                found = true;
                break;
            }
            k = k + 1;
        }
        let ghost before = top_view(counts@);
        proof {
            assert(before.len() == counts@.len());
            assert(first_seen(t).len() == counts@.len());
            assert forall|m: int| 0 <= m < counts@.len() implies first_seen(t)[m] == counts@[m].0@ by {
                assert(before[m] == song_counts(t)[m]);
            }
            if !found {
                assert forall|m: int| 0 <= m < first_seen(t).len() implies first_seen(t)[m] != e.song_id by {
                    assert(counts@[m].0@ != e.song_id);
                }
            }
        }
        if found {
            let c = counts[k].1;
            proof {
                assert(first_seen(t).contains(e.song_id)) by {
                    assert(first_seen(t)[k as int] == e.song_id);
                }
                assert(before[k as int] == (counts@[k as int].0@, counts@[k as int].1 as nat));
                assert(song_counts(t)[k as int] == (first_seen(t)[k as int], plays_of(t, first_seen(t)[k as int])));
                assert(c as nat == plays_of(t, e.song_id));
                lemma_plays_bound(t, e.song_id);
            }
            let name = counts[k].0.clone();
            let ghost old_counts = counts@;
            counts.set(k, (name, c + 1));
            proof {
                assert(first_seen(t2) == first_seen(t));
                assert forall|m: int| 0 <= m < counts@.len() implies top_view(counts@)[m] == song_counts(t2)[m] by {
                    assert(song_counts(t2)[m] == (first_seen(t2)[m], plays_of(t2, first_seen(t2)[m])));
                    assert(song_counts(t)[m] == (first_seen(t)[m], plays_of(t, first_seen(t)[m])));
                    assert(before[m] == (old_counts[m].0@, old_counts[m].1 as nat));
                    assert(top_view(counts@)[m] == (counts@[m].0@, counts@[m].1 as nat));
                    assert(before[m] == song_counts(t)[m]);
                    if m != k {
                        assert(first_seen(t)[m] != first_seen(t)[k as int]);
                    }
                }
                assert(top_view(counts@) =~= song_counts(t2));
            }
        } else {
            proof {
                assert(!first_seen(t).contains(e.song_id));
            }
            counts.push((id.clone(), 1));
            proof {
                assert(first_seen(t2) == first_seen(t).push(e.song_id));
                assert forall|m: int| 0 <= m < counts@.len() implies top_view(counts@)[m] == song_counts(t2)[m] by {
                    assert(song_counts(t2)[m] == (first_seen(t2)[m], plays_of(t2, first_seen(t2)[m])));
                    assert(top_view(counts@)[m] == (counts@[m].0@, counts@[m].1 as nat));
                    if m < counts@.len() - 1 {
                        assert(song_counts(t)[m] == (first_seen(t)[m], plays_of(t, first_seen(t)[m])));
                        assert(before[m] == (counts@[m].0@, counts@[m].1 as nat));
                        assert(before[m] == song_counts(t)[m]);
                        assert(first_seen(t)[m] != e.song_id);
                    } else {
                        lemma_first_seen(t);
                    }
                }
                assert(top_view(counts@) =~= song_counts(t2));
            }
        }
        i = i + 1;
    }
    assert(all.take(plays.len() as int) =~= all);
    counts
}

proof fn lemma_insert_count_at(t: Seq<(Seq<char>, nat)>, x: (Seq<char>, nat), j: int)
    requires
        0 <= j <= t.len(),
        forall|k: int| j <= k < t.len() ==> x.1 > (#[trigger] t[k]).1,
        j == 0 || x.1 <= t[j - 1].1,
    ensures
        insert_by_count(t, x) == t.insert(j, x),
    decreases t.len(),
{
    if t.len() == j {
        if j == 0 {
            assert(t.insert(j, x) =~= seq![x]);
        } else {
            assert(t.insert(j, x) =~= t.push(x));
        }
    } else {
        assert(x.1 > t[t.len() - 1].1);
        lemma_insert_count_at(t.drop_last(), x, j);
        assert(t.drop_last().insert(j, x).push(t.last()) =~= t.insert(j, x));
    }
}

/// Stably sorts the counts, most played first.
fn sort_counts(counts: Vec<(String, u32)>) -> (r: Vec<(String, u32)>)
    ensures
        top_view(r@) == sort_by_count(top_view(counts@)),
{
    let ghost all = top_view(counts@);
    let mut out: Vec<(String, u32)> = Vec::new();
    let mut i: usize = 0;
    assert(all.take(0) =~= Seq::<(Seq<char>, nat)>::empty());
    assert(top_view(out@) =~= Seq::<(Seq<char>, nat)>::empty());
    while i < counts.len()
        invariant
            i <= counts@.len(),
            all == top_view(counts@),
            top_view(out@) == sort_by_count(all.take(i as int)),
        decreases counts.len() - i,
    {
        let ghost t = top_view(out@);
        let x = (counts[i].0.clone(), counts[i].1);
        let ghost xv = (x.0@, x.1 as nat);
        assert(all.take(i + 1).drop_last() =~= all.take(i as int));
        assert(all.take(i + 1).last() == xv);
        let mut j = out.len();
        while j > 0 && x.1 > out[j - 1].1
            invariant
                j <= out@.len(),
                t == top_view(out@),
                forall|k: int| j <= k < t.len() ==> xv.1 > (#[trigger] t[k]).1,
                xv.1 == x.1 as nat,
            decreases j,
        {
            assert(t[j - 1] == (out@[j - 1].0@, out@[j - 1].1 as nat));
            j = j - 1;
        }
        proof {
            if j > 0 {
                assert(t[j - 1] == (out@[j - 1].0@, out@[j - 1].1 as nat));
            }
            lemma_insert_count_at(t, xv, j as int);
        }
        out.insert(j, x);
        assert(top_view(out@) =~= t.insert(j as int, xv));
        i = i + 1;
    }
    assert(all.take(counts.len() as int) =~= all);
    out
}

/// Day number of a time in seconds (rounding toward the past).
fn day_number(ts: i64) -> (r: i64)
    ensures
        r == day_of(ts as int),
{
    let q = ts / 86400;
    let r = ts % 86400;
    if r < 0 {
        q - 1
    } else {
        q
    }
}

/// Per-day seconds, oldest day first: the invariant of `collect_days`.
spec fn days_of(v: Seq<(i64, u64)>, s: Seq<PlayView>) -> bool {
    &&& forall|i: int, j: int| 0 <= i < j < v.len() ==> v[i].0 < v[j].0
    &&& forall|k: int| 0 <= k < v.len() ==> has_day(s, #[trigger] v[k].0 as int) && v[k].1 == day_secs(s, v[k].0 as int)
    &&& forall|d: int| has_day(s, d) ==> exists|k: int| 0 <= k < v.len() && #[trigger] v[k].0 == d
}

/// Each day with plays and its seconds listened, oldest first.
fn collect_days(plays: &[PlayRecord]) -> (r: Vec<(i64, u64)>)
    requires
        plays@.len() <= u32::MAX,
    ensures
        days_of(r@, plays_view(plays@)),
{
    let ghost all = plays_view(plays@);
    let mut days: Vec<(i64, u64)> = Vec::new();
    let mut i: usize = 0;
    assert(all.take(0) =~= Seq::<PlayView>::empty());
    while i < plays.len()
        invariant
            i <= plays@.len() <= u32::MAX,
            all == plays_view(plays@),
            days_of(days@, all.take(i as int)),
        decreases plays.len() - i,
    {
        let ghost t = all.take(i as int);
        let ghost t2 = all.take(i + 1);
        let ghost e = plays@[i as int]@;
        proof {
            assert(t2.drop_last() =~= t);
            assert(t2.last() == e);
            lemma_listened_bound(t);
            lemma_listened_bound(t2);
            assert(listened_total(t2) <= (i + 1) * 0xffff_ffff);
        }
        let d = day_number(plays[i].started_at);
        let secs = plays[i].listened_secs as u64;
        let mut j = days.len();
        while j > 0 && days[j - 1].0 > d
            invariant
                j <= days@.len(),
                forall|k: int| j <= k < days@.len() ==> days@[k].0 > d,
            decreases j,
        {
            j = j - 1;
        }
        if j > 0 && days[j - 1].0 == d {
            let old_secs = days[j - 1].1;
            proof {
                assert(old_secs == day_secs(t, d as int));
                assert(day_secs(t2, d as int) <= listened_total(t2));
            }
            let ghost old_days = days@;
            days.set(j - 1, (d, old_secs + secs));
            proof {
                assert forall|k: int| 0 <= k < days@.len() implies has_day(t2, #[trigger] days@[k].0 as int)
                    && days@[k].1 == day_secs(t2, days@[k].0 as int) by {}
                assert forall|dd: int| has_day(t2, dd) implies exists|k: int| 0 <= k < days@.len() && #[trigger] days@[k].0
                    == dd by {
                    if dd == d {
                        assert(days@[j - 1].0 == dd);
                    } else {
                        assert(has_day(t, dd));
                        let k = choose|k: int| 0 <= k < old_days.len() && #[trigger] old_days[k].0 == dd;
                        assert(days@[k].0 == dd);
                    }
                }
            }
        } else {
            proof {
                assert(!has_day(t, d as int)) by {
                    if has_day(t, d as int) {
                        let k = choose|k: int| 0 <= k < days@.len() && #[trigger] days@[k].0 == d;
                        if k >= j {
                        } else if k < j - 1 {
                            assert(days@[k].0 < days@[j - 1].0);
                        }
                    }
                }
                assert(day_secs(t, d as int) == 0) by {
                    lemma_day_secs_zero(t, d as int);
                }
            }
            let ghost old_days = days@;
            days.insert(j, (d, secs));
            proof {
                assert(days@ == old_days.insert(j as int, (d, secs)));
                assert forall|a: int, b: int| 0 <= a < b < days@.len() implies days@[a].0 < days@[b].0 by {
                    if a < j as int && b < j as int {
                    } else if a < j as int && b == j as int {
                        if a < j - 1 {
                            assert(old_days[a].0 < old_days[j - 1].0);
                        }
                    } else if a < j as int {
                        assert(old_days[b - 1].0 > d);
                    } else if a == j as int {
                        assert(old_days[b - 1].0 > d);
                    } else {
                        assert(old_days[a - 1].0 < old_days[b - 1].0);
                    }
                }
                assert forall|k: int| 0 <= k < days@.len() implies has_day(t2, #[trigger] days@[k].0 as int)
                    && days@[k].1 == day_secs(t2, days@[k].0 as int) by {
                    if k < j as int {
                        assert(days@[k] == old_days[k]);
                        assert(old_days[k].0 != d) by {
                            if k < j - 1 {
                                assert(old_days[k].0 < old_days[j - 1].0);
                            }
                        }
                    } else if k > j as int {
                        assert(days@[k] == old_days[k - 1]);
                    }
                }
                assert forall|dd: int| has_day(t2, dd) implies exists|k: int| 0 <= k < days@.len() && #[trigger] days@[k].0
                    == dd by {
                    if dd == d {
                        assert(days@[j as int].0 == dd);
                    } else {
                        assert(has_day(t, dd));
                        let k = choose|k: int| 0 <= k < old_days.len() && #[trigger] old_days[k].0 == dd;
                        if k < j as int {
                            assert(days@[k].0 == dd);
                        } else {
                            assert(days@[k + 1].0 == dd);
                        }
                    }
                }
            }
        }
        i = i + 1;
    }
    assert(all.take(plays.len() as int) =~= all);
    days
}

proof fn lemma_day_secs_zero(s: Seq<PlayView>, d: int)
    requires
        !has_day(s, d),
    ensures
        day_secs(s, d) == 0,
    decreases s.len(),
{
    if s.len() > 0 {
        lemma_day_secs_zero(s.drop_last(), d);
    }
}

/// The per-day minutes: the last (at most 365) days, whole minutes each.
fn daily_from(days: Vec<(i64, u64)>, Ghost(s): Ghost<Seq<PlayView>>) -> (r: Vec<(i64, u32)>)
    requires
        days_of(days@, s),
    ensures
        is_daily_of(r@, s),
{
    let start = if days.len() > 365 { days.len() - 365 } else { 0 };
    let mut out: Vec<(i64, u32)> = Vec::new();
    let mut i = start;
    while i < days.len()
        invariant
            start <= i <= days@.len(),
            start == (if days@.len() > 365 { days@.len() - 365 } else { 0 }),
            days_of(days@, s),
            out@.len() == i - start,
            forall|k: int| 0 <= k < out@.len() ==> (#[trigger] out@[k]).0 == days@[k + start].0 && out@[k].1 == (
            days@[k + start].1 / 60) as u32,
        decreases days.len() - i,
    {
        let (d, secs) = days[i];
        out.push((d, #[verifier::truncate] ((secs / 60) as u32)));
        i = i + 1;
    }
    proof {
        assert forall|a: int, b: int| 0 <= a < b < out@.len() implies out@[a].0 < out@[b].0 by {
            assert(days@[a + start].0 < days@[b + start].0);
        }
        assert forall|k: int| 0 <= k < out@.len() implies has_day(s, #[trigger] out@[k].0 as int) && out@[k].1 == (
        day_secs(s, out@[k].0 as int) / 60) as u32 by {
            assert(has_day(s, days@[k + start].0 as int));
        }
        assert forall|d: int| has_day(s, d) implies (exists|k: int| 0 <= k < out@.len() && #[trigger] out@[k].0 == d)
            || (out@.len() == 365 && d < out@[0].0) by {
            let k = choose|k: int| 0 <= k < days@.len() && #[trigger] days@[k].0 == d;
            if k >= start {
                assert(out@[k - start].0 == d);
            } else {
                assert(days@[k].0 < days@[start as int].0);
                assert(out@[0].0 == days@[start as int].0);
            }
        }
    }
    out
}

/// The streak of listening days ending on `today`, from a per-day list
/// with strictly increasing days.
pub fn compute_streak(daily: &[(i64, u32)], today: i64) -> (r: u32)
    requires
        forall|i: int, j: int| 0 <= i < j < daily@.len() ==> daily@[i].0 < daily@[j].0,
        daily@.len() <= u32::MAX,
        today - daily@.len() >= i64::MIN,
    ensures
        is_streak(daily@, today as int, r as int),
{
    let mut j = daily.len();
    while j > 0 && daily[j - 1].0 > today
        invariant
            j <= daily@.len(),
            forall|k: int| j <= k < daily@.len() ==> daily@[k].0 > today,
        decreases j,
    {
        j = j - 1;
    }
    let mut k: u32 = 0;
    let mut d = today;
    while j > 0 && daily[j - 1].0 == d && daily[j - 1].1 > 0
        invariant
            j <= daily@.len(),
            forall|a: int, b: int| 0 <= a < b < daily@.len() ==> daily@[a].0 < daily@[b].0,
            forall|m: int| j <= m < daily@.len() ==> daily@[m].0 > d,
            forall|m: int| 0 <= m < j ==> daily@[m].0 <= d,
            k as int + j as int <= daily@.len(),
            daily@.len() <= u32::MAX,
            d == today - k,
            today - daily@.len() >= i64::MIN,
            forall|i: int| 0 <= i < k ==> active(daily@, #[trigger] (today - i)),
        decreases j,
    {
        proof {
            assert(active(daily@, today - k)) by {
                assert(daily@[j - 1].0 == today - k);
            }
            assert forall|m: int| 0 <= m < j - 1 implies daily@[m].0 <= d - 1 by {
                assert(daily@[m].0 < daily@[j - 1].0);
            }
        }
        k = k + 1;
        d = d - 1;
        j = j - 1;
    }
    proof {
        if active(daily@, d as int) {
            let m = choose|m: int| 0 <= m < daily@.len() && daily@[m].0 == d && daily@[m].1 > 0;
            if m < j - 1 {
                assert(daily@[m].0 < daily@[j - 1].0);
            }
        }
    }
    k
}

impl ListeningStats {
    /// Statistics of nothing.
    pub fn empty() -> (r: ListeningStats)
        ensures
            r.total_plays == 0,
            r.total_listened_secs == 0,
            r.total_skips == 0,
            r.top_songs@.len() == 0,
            r.daily_minutes@.len() == 0,
            r.streak_days == 0,
    {
        ListeningStats {
            total_plays: 0,
            total_listened_secs: 0,
            total_skips: 0,
            top_songs: Vec::new(),
            daily_minutes: Vec::new(),
            streak_days: 0,
        }
    }
}

/// Totals of a history: plays, seconds listened, skips.
fn totals(plays: &[PlayRecord]) -> (r: (u32, u64, u32))
    requires
        plays@.len() <= u32::MAX,
    ensures
        r.0 == plays@.len(),
        r.1 == listened_total(plays_view(plays@)),
        r.2 == skip_count(plays_view(plays@)),
{
    let ghost all = plays_view(plays@);
    let mut secs: u64 = 0;
    let mut skips: u32 = 0;
    let mut i: usize = 0;
    assert(all.take(0) =~= Seq::<PlayView>::empty());
    while i < plays.len()
        invariant
            i <= plays@.len() <= u32::MAX,
            all == plays_view(plays@),
            secs == listened_total(all.take(i as int)),
            skips == skip_count(all.take(i as int)),
        decreases plays.len() - i,
    {
        proof {
            assert(all.take(i + 1).drop_last() =~= all.take(i as int));
            lemma_listened_bound(all.take(i as int));
            assert(listened_total(all.take(i as int)) <= i * 0xffff_ffff);
        }
        secs = secs + plays[i].listened_secs as u64;
        if plays[i].was_skipped {
            skips = skips + 1;
        }
        i = i + 1;
    }
    assert(all.take(plays.len() as int) =~= all);
    (plays.len() as u32, secs, skips)
}

/// The full statistics of a history on day `today`: totals, the twenty most
/// played songs, minutes per day over the last 365 days with plays, and the
/// streak of listening days ending today.
pub fn compute_stats(plays: &[PlayRecord], today: i64) -> (r: ListeningStats)
    requires
        plays@.len() <= u32::MAX,
        today - 365 >= i64::MIN,
    ensures
        r.total_plays == plays@.len(),
        r.total_listened_secs == listened_total(plays_view(plays@)),
        r.total_skips == skip_count(plays_view(plays@)),
        top_view(r.top_songs@) == top_songs(plays_view(plays@)),
        is_daily_of(r.daily_minutes@, plays_view(plays@)),
        is_streak(r.daily_minutes@, today as int, r.streak_days as int),
{
    let (total_plays, total_listened_secs, total_skips) = totals(plays);
    let counts = count_songs(plays);
    let mut top = sort_counts(counts);
    if top.len() > 20 {
        let ghost full = top@;
        top.truncate(20);
        assert(top_view(top@) =~= top_view(full).take(20));
    }
    let days = collect_days(plays);
    let daily = daily_from(days, Ghost(plays_view(plays@)));
    let streak_days = compute_streak(daily.as_slice(), today);
    ListeningStats { total_plays, total_listened_secs, total_skips, top_songs: top, daily_minutes: daily, streak_days }
}

/// The plays started at or after `since` (seconds since 1970-01-01 UTC).
pub open spec fn plays_since(s: Seq<PlayView>, since: i64) -> Seq<PlayView> {
    s.filter(|p: PlayView| p.started_at >= since)
}

/// Statistics of the plays since a time: totals and most played songs
/// (no per-day list, no streak).
pub fn compute_stats_for_period(plays: &[PlayRecord], since: i64) -> (r: ListeningStats)
    requires
        plays@.len() <= u32::MAX,
    ensures
        r.total_plays == plays_since(plays_view(plays@), since).len(),
        r.total_listened_secs == listened_total(plays_since(plays_view(plays@), since)),
        r.total_skips == skip_count(plays_since(plays_view(plays@), since)),
        top_view(r.top_songs@) == top_songs(plays_since(plays_view(plays@), since)),
        r.daily_minutes@.len() == 0,
        r.streak_days == 0,
{
    let ghost all = plays_view(plays@);
    let mut kept: Vec<PlayRecord> = Vec::new();
    let mut i: usize = 0;
    assert(all.take(0).filter(|p: PlayView| p.started_at >= since) =~= Seq::<PlayView>::empty());
    assert(plays_view(kept@) =~= Seq::<PlayView>::empty());
    while i < plays.len()
        invariant
            i <= plays@.len(),
            all == plays_view(plays@),
            kept@.len() <= i,
            plays_view(kept@) == all.take(i as int).filter(|p: PlayView| p.started_at >= since),
        decreases plays.len() - i,
    {
        proof {
            assert(all.take(i + 1).drop_last() =~= all.take(i as int));
            reveal(Seq::filter);
        }
        if plays[i].started_at >= since {
            let p = plays[i].clone_record();
            let ghost k0 = kept@;
            kept.push(p);
            assert(plays_view(kept@) =~= plays_view(k0).push(p@));
        }
        i = i + 1;
    }
    assert(all.take(plays.len() as int) =~= all);
    let (total_plays, total_listened_secs, total_skips) = totals(kept.as_slice());
    let counts = count_songs(kept.as_slice());
    let mut top = sort_counts(counts);
    if top.len() > 20 {
        let ghost full = top@;
        top.truncate(20);
        assert(top_view(top@) =~= top_view(full).take(20));
    }
    ListeningStats {
        total_plays,
        total_listened_secs,
        total_skips,
        top_songs: top,
        daily_minutes: Vec::new(),
        streak_days: 0,
    }
}

impl PlayRecord {
    /// A copy of this play that denotes the same value.
    pub fn clone_record(&self) -> (r: PlayRecord)
        ensures
            r@ == self@,
    {
        PlayRecord {
            song_id: self.song_id.clone(),
            started_at: self.started_at,
            listened_secs: self.listened_secs,
            was_skipped: self.was_skipped,
        }
    }
}

} // verus!

verus! {

/// Calls `chrono::Utc::now` for the current time in seconds since
/// 1970-01-01 UTC. The result depends on the clock; nothing is claimed of it.
#[verifier::external_body]
fn now_secs() -> (r: i64) {
    chrono::Utc::now().timestamp()
}

/// The full statistics of a history as of now (see `compute_stats`); the
/// streak ends on the current day, whichever day that is.
pub fn get_stats(plays: &[PlayRecord]) -> (r: ListeningStats)
    requires
        plays@.len() <= u32::MAX,
    ensures
        r.total_plays == plays@.len(),
        r.total_listened_secs == listened_total(plays_view(plays@)),
        r.total_skips == skip_count(plays_view(plays@)),
        top_view(r.top_songs@) == top_songs(plays_view(plays@)),
        is_daily_of(r.daily_minutes@, plays_view(plays@)),
        exists|today: int| is_streak(r.daily_minutes@, today, r.streak_days as int),
{
    let today = day_number(now_secs());
    compute_stats(plays, today)
}

} // verus!
