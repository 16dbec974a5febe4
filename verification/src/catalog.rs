//! The desktop shell's song catalog: songs named after their files
//! (`Artist - Title.ext`, in an album folder), searched by title, artist or
//! album, and the shell's simple queue.
//!
//! Walking the folder and checking that an entry is a file is the
//! application's job; this module decides what each path becomes.
use vstd::prelude::*;
use crate::scanner::{extension_of, file_name_of, file_name_range, last_index_of, lemma_last_index_of_bounds};
use crate::song::{records_view, RecordView, SongRecord};
use crate::text::{
    chars_of, contains_seq, decimal, lowercase, occurs_at, push_decimal, str_contains, str_eq, string_from_chars,
    to_lowercase,
};

verus! {

broadcast use vstd::string::group_string_axioms;

/// The extensions the shell's catalog takes.
pub open spec fn catalog_extensions() -> Seq<Seq<char>> {
    seq!["mp3"@, "flac"@, "ogg"@, "wav"@, "m4a"@, "aac"@, "opus"@, "wma"@]
}

/// The file name without its extension, as `Path::file_stem` gives it.
pub open spec fn stem_of(name: Seq<char>) -> Seq<char> {
    let k = last_index_of(name, '.');
    if k <= 0 {
        name
    } else {
        name.subrange(0, k)
    }
}

/// Where the file name of a path starts (see `file_name_of`).
pub open spec fn name_start(p: Seq<char>) -> int
    decreases p.len(),
{
    if p.len() == 0 {
        0
    } else if p.last() == '/' {
        name_start(p.drop_last())
    } else {
        let k = last_index_of(p, '/');
        let seg = p.subrange(k + 1, p.len() as int);
        if seg == seq!['.'] && k >= 0 {
            proof {
                lemma_last_index_of_bounds(p, '/');
            }
            name_start(p.subrange(0, k))
        } else {
            k + 1
        }
    }
}

/// The name of the folder holding the file, as `Path::parent` followed by
/// `Path::file_name` finds it.
pub open spec fn parent_name(p: Seq<char>) -> Option<Seq<char>> {
    file_name_of(p.subrange(0, name_start(p)))
}

/// The first position of `needle` in `hay`, if it occurs.
pub open spec fn first_occurrence(hay: Seq<char>, needle: Seq<char>) -> Option<int> {
    if exists|i: int| occurs_at(hay, needle, i) {
        Some(choose|i: int| occurs_at(hay, needle, i) && forall|j: int| 0 <= j < i ==> !occurs_at(hay, needle, j))
    } else {
        None
    }
}

/// Artist and title of a file stem: the parts around the first `" - "`,
/// or an unknown artist and the whole stem.
pub open spec fn artist_title(stem: Seq<char>) -> (Seq<char>, Seq<char>) {
    match first_occurrence(stem, " - "@) {
        Some(i) => (stem.subrange(0, i), stem.subrange(i + 3, stem.len() as int)),
        None => ("Unknown Artist"@, stem),
    }
}

/// What the catalog makes of a file: nothing unless its extension (in any
/// case) is one it takes; otherwise a song with the given id, artist and
/// title from the file name, the folder as album, and no duration yet.
pub open spec fn catalog_entry(p: Seq<char>, id: u64) -> Option<RecordView> {
    match file_name_of(p) {
        Some(name) => match extension_of(name) {
            Some(ext) => if catalog_extensions().contains(lowercase(ext)) {
                let (artist, title) = artist_title(stem_of(name));
                Some(
                    RecordView {
                        id: decimal(id as nat),
                        file_path: p,
                        title,
                        artist,
                        album: match parent_name(p) {
                            Some(a) => a,
                            None => "Unknown Album"@,
                        },
                        duration_secs: 0,
                    },
                )
            } else {
                None
            },
            None => None,
        },
        None => None,
    }
}

proof fn lemma_name_start_bounds(p: Seq<char>)
    ensures
        0 <= name_start(p) <= p.len(),
    decreases p.len(),
{
    if p.len() > 0 {
        if p.last() == '/' {
            lemma_name_start_bounds(p.drop_last());
        } else {
            lemma_last_index_of_bounds(p, '/');
            let k = last_index_of(p, '/');
            let seg = p.subrange(k + 1, p.len() as int);
            if seg == seq!['.'] && k >= 0 {
                lemma_name_start_bounds(p.subrange(0, k));
            }
        }
    }
}

/// The characters `v[lo..hi]`.
fn slice_chars(v: &Vec<char>, lo: usize, hi: usize) -> (r: Vec<char>)
    requires
        lo <= hi <= v@.len(),
    ensures
        r@ == v@.subrange(lo as int, hi as int),
{
    let mut out: Vec<char> = Vec::new();
    let mut i = lo;
    while i < hi
        invariant
            lo <= i <= hi <= v@.len(),
            out@ == v@.subrange(lo as int, i as int),
        decreases hi - i,
    {
        out.push(v[i]);
        i = i + 1;
    }
    out
}

/// The index of the last `c` in `v`.
fn last_index(v: &Vec<char>, c: char) -> (r: Option<usize>)
    ensures
        match r {
            Some(k) => k as int == last_index_of(v@, c),
            None => last_index_of(v@, c) == -1,
        },
{
    let mut i = v.len();
    assert(v@.take(i as int) =~= v@);
    while i > 0
        invariant
            i <= v@.len(),
            last_index_of(v@, c) == last_index_of(v@.take(i as int), c),
        decreases i,
    {
        assert(v@.take(i as int).drop_last() =~= v@.take(i - 1));
        if v[i - 1] == c {
            return Some(i - 1);
        }
        i = i - 1;
    }
    None
}

/// The start of the file name of `v` (see `name_start`).
fn name_start_of(v: &Vec<char>) -> (r: usize)
    ensures
        r as int == name_start(v@),
{
    let mut end = v.len();
    assert(v@.take(end as int) =~= v@);
    loop
        invariant
            end <= v@.len(),
            name_start(v@) == name_start(v@.take(end as int)),
        decreases end,
    {
        let ghost p = v@.take(end as int);
        if end == 0 {
            return 0;
        }
        if v[end - 1] == '/' {
            assert(p.drop_last() =~= v@.take(end - 1));
            end = end - 1;
        } else {
            let pv = slice_chars(v, 0, end);
            assert(pv@ =~= p);
            let k = last_index(&pv, '/');
            proof {
                lemma_last_index_of_bounds(p, '/');
            }
            let start: usize = match k {
                Some(k) => k + 1,
                None => 0,
            };
            assert(p.subrange(start as int, end as int) =~= v@.subrange(start as int, end as int));
            if end - start == 1 && v[start] == '.' && start > 0 {
                assert(p.subrange(start as int, end as int) =~= seq!['.']);
                assert(p.subrange(0, start - 1) =~= v@.take(start - 1));
                end = start - 1;
            } else {
                proof {
                    let seg = p.subrange(start as int, end as int);
                    if seg == seq!['.'] {
                        assert(seg.len() == 1 && seg[0] == v@[start as int]);
                    }
                }
                return start;
            }
        }
    }
}

/// Whether the lowercase extension is one the catalog takes.
fn is_catalog_extension(ext: &str) -> (r: bool)
    ensures
        r == catalog_extensions().contains(ext@),
{
    let r = str_eq(ext, "mp3") || str_eq(ext, "flac") || str_eq(ext, "ogg") || str_eq(ext, "wav")
        || str_eq(ext, "m4a") || str_eq(ext, "aac") || str_eq(ext, "opus") || str_eq(ext, "wma");
    proof {
        let a = catalog_extensions();
        if r {
            assert(ext@ == a[0] || ext@ == a[1] || ext@ == a[2] || ext@ == a[3] || ext@ == a[4]
                || ext@ == a[5] || ext@ == a[6] || ext@ == a[7]);
        } else {
            assert forall|i: int| 0 <= i < a.len() implies a[i] != ext@ by {
                assert(i == 0 || i == 1 || i == 2 || i == 3 || i == 4 || i == 5 || i == 6 || i == 7);
            }
        }
    }
    r
}

/// Whether `v[i..]` starts with `" - "`.
fn dash_at(v: &Vec<char>, i: usize) -> (r: bool)
    requires
        v.len() >= 3,
        i <= v.len() - 3,
    ensures
        r == occurs_at(v@, " - "@, i as int),
{
    proof {
        reveal_strlit(" - ");
    }
    let r = v[i] == ' ' && v[i + 1] == '-' && v[i + 2] == ' ';
    proof {
        if r {
            assert(v@.subrange(i as int, i + 3) =~= " - "@);
        } else {
            let s = v@.subrange(i as int, i + 3);
            if s == " - "@ {
                assert(s[0] == v@[i as int] && s[1] == v@[i + 1] && s[2] == v@[i + 2]);
            }
        }
    }
    r
}

/// Splits a stem into artist and title (see `artist_title`).
fn split_artist_title(stem: &Vec<char>) -> (r: (String, String))
    ensures
        (r.0@, r.1@) == artist_title(stem@),
{
    proof {
        reveal_strlit(" - ");
    }
    let n = stem.len();
    let mut i: usize = 0;
    while n >= 3 && i <= n - 3
        invariant
            n == stem@.len(),
            forall|j: int| 0 <= j < i ==> !occurs_at(stem@, " - "@, j),
        decreases n - i,
    {
        if dash_at(stem, i) {
            proof {
                assert(occurs_at(stem@, " - "@, i as int));
                let c = choose|c: int| occurs_at(stem@, " - "@, c) && forall|j: int| 0 <= j < c ==> !occurs_at(
                    stem@,
                    " - "@,
                    j,
                );
                assert(c == i as int) by {
                    if c < i {
                    } else if c > i {
                        assert(!occurs_at(stem@, " - "@, i as int));
                    }
                }
            }
            let artist = string_from_chars(&slice_chars(stem, 0, i));
            let title = string_from_chars(&slice_chars(stem, i + 3, n));
            return (artist, title);
        }
        i = i + 1;
    }
    proof {
        assert forall|j: int| !occurs_at(stem@, " - "@, j) by {
            if j >= i {
                assert(j + 3 > stem@.len());
            }
        }
    }
    ("Unknown Artist".to_string(), string_from_chars(stem))
}

/// The catalog song for the file at `path` with number `id`, or nothing
/// when its extension is not one the catalog takes (see `catalog_entry`).
pub fn catalog_song(path: &str, id: u64) -> (r: Option<SongRecord>)
    ensures
        match r {
            Some(s) => catalog_entry(path@, id) == Some(s@),
            None => catalog_entry(path@, id) is None,
        },
{
    let v = chars_of(path);
    let name = match file_name_range(&v) {
        Some((s, e)) => slice_chars(&v, s, e),
        None => {
            return None;
        },
    };
    let k = last_index(&name, '.');
    let ext_start = match k {
        Some(k) if k > 0 => k,
        _ => {
            return None;
        },
    };
    proof {
        lemma_last_index_of_bounds(name@, '.');
    }
    let ext = string_from_chars(&slice_chars(&name, ext_start + 1, name.len()));
    let lower = to_lowercase(ext.as_str());
    if !is_catalog_extension(lower.as_str()) {
        return None;
    }
    let stem = slice_chars(&name, 0, ext_start);
    let (artist, title) = split_artist_title(&stem);
    let start = name_start_of(&v);
    proof {
        lemma_name_start_bounds(v@);
    }
    let parent = slice_chars(&v, 0, start);
    let album = match file_name_range(&parent) {
        Some((s, e)) => string_from_chars(&slice_chars(&parent, s, e)),
        None => "Unknown Album".to_string(),
    };
    let mut id_chars: Vec<char> = Vec::new();
    push_decimal(&mut id_chars, id);
    assert(id_chars@ =~= decimal(id as nat));
    Some(SongRecord {
        id: string_from_chars(&id_chars),
        file_path: path.to_string(),
        title,
        artist,
        album,
        duration_secs: 0,
    })
}

/// A catalog song matches a lowercased query by title, artist or album.
pub open spec fn catalog_matches(r: RecordView, lower_q: Seq<char>) -> bool {
    contains_seq(lowercase(r.title), lower_q) || contains_seq(lowercase(r.artist), lower_q) || contains_seq(
        lowercase(r.album),
        lower_q,
    )
}

/// The songs of `lib` matching the lowercased query, in order.
pub open spec fn catalog_results(lib: Seq<RecordView>, lower_q: Seq<char>) -> Seq<RecordView>
    decreases lib.len(),
{
    if lib.len() == 0 {
        lib
    } else if catalog_matches(lib.last(), lower_q) {
        catalog_results(lib.drop_last(), lower_q).push(lib.last())
    } else {
        catalog_results(lib.drop_last(), lower_q)
    }
}

/// The songs whose title, artist or album contains the query, ignoring
/// case (an empty query matches every song).
pub fn search_catalog(lib: &Vec<SongRecord>, query: &str) -> (r: Vec<SongRecord>)
    ensures
        records_view(r@) == catalog_results(records_view(lib@), lowercase(query@)),
{
    let q = to_lowercase(query);
    let mut out: Vec<SongRecord> = Vec::new();
    let mut i: usize = 0;
    assert(records_view(lib@).take(0) =~= Seq::<RecordView>::empty());
    assert(records_view(out@) =~= Seq::<RecordView>::empty());
    while i < lib.len()
        invariant
            i <= lib@.len(),
            q@ == lowercase(query@),
            records_view(out@) == catalog_results(records_view(lib@).take(i as int), q@),
        decreases lib.len() - i,
    {
        let t = to_lowercase(lib[i].title.as_str());
        let a = to_lowercase(lib[i].artist.as_str());
        let b = to_lowercase(lib[i].album.as_str());
        let hit = str_contains(t.as_str(), q.as_str()) || str_contains(a.as_str(), q.as_str()) || str_contains(
            b.as_str(),
            q.as_str(),
        );
        proof {
            assert(records_view(lib@).take(i + 1).drop_last() =~= records_view(lib@).take(i as int));
            assert(records_view(lib@).take(i + 1).last() == lib@[i as int]@);
        }
        if hit {
            let d = lib[i].duplicate();
            let ghost o = out@;
            out.push(d);
            assert(records_view(out@) =~= records_view(o).push(d@));
        }
        i = i + 1;
    }
    assert(records_view(lib@).take(lib.len() as int) =~= records_view(lib@));
    out
}

/// The queue without the songs whose id is `id` (order kept).
pub open spec fn without_id(q: Seq<RecordView>, id: Seq<char>) -> Seq<RecordView> {
    q.filter(|r: RecordView| r.id != id)
}

/// Removes every queued song with the given id.
pub fn remove_from_queue(queue: &mut Vec<SongRecord>, song_id: &str)
    ensures
        records_view(final(queue)@) == without_id(records_view(old(queue)@), song_id@),
{
    let ghost all = records_view(queue@);
    let mut kept: Vec<SongRecord> = Vec::new();
    let mut i: usize = 0;
    assert(all.take(0).filter(|r: RecordView| r.id != song_id@) =~= Seq::<RecordView>::empty());
    assert(records_view(kept@) =~= Seq::<RecordView>::empty());
    while i < queue.len()
        invariant
            i <= queue@.len(),
            all == records_view(queue@),
            records_view(kept@) == all.take(i as int).filter(|r: RecordView| r.id != song_id@),
        decreases queue.len() - i,
    {
        proof {
            assert(all.take(i + 1).drop_last() =~= all.take(i as int));
            reveal(Seq::filter);
        }
        if !str_eq(queue[i].id.as_str(), song_id) {
            let d = queue[i].duplicate();
            let ghost k0 = kept@;
            kept.push(d);
            assert(records_view(kept@) =~= records_view(k0).push(d@));
        }
        i = i + 1;
    }
    assert(all.take(queue.len() as int) =~= all);
    *queue = kept;
}

/// The shell's recommendations: the first six songs of the library.
pub fn first_recommendations(lib: &Vec<SongRecord>) -> (r: Vec<SongRecord>)
    ensures
        records_view(r@) == records_view(lib@).take(vstd::math::min(6, lib@.len() as int)),
{
    let n = if lib.len() < 6 { lib.len() } else { 6 };
    let mut out: Vec<SongRecord> = Vec::new();
    let mut i: usize = 0;
    while i < n
        invariant
            n <= lib@.len(),
            n == vstd::math::min(6, lib@.len() as int),
            i <= n,
            records_view(out@) == records_view(lib@).take(i as int),
        decreases n - i,
    {
        let d = lib[i].duplicate();
        let ghost o = out@;
        out.push(d);
        assert(records_view(out@) =~= records_view(o).push(d@));
        assert(records_view(out@) =~= records_view(lib@).take(i + 1));
        i = i + 1;
    }
    out
}

} // verus!
