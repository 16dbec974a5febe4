//! Which files of the music folder are audio files.
//!
//! Walking the folder is the application's job; this module decides, from a
//! path, whether the file is indexed: its file name must have one of the
//! audio extensions, in any letter case.
use vstd::prelude::*;
use crate::text::{chars_of, lowercase, str_eq, string_from_chars, to_lowercase};

verus! {

broadcast use vstd::string::group_string_axioms;

/// The index of the last `c` in `s`, or -1 when there is none.
pub open spec fn last_index_of(s: Seq<char>, c: char) -> int
    decreases s.len(),
{
    if s.len() == 0 {
        -1
    } else if s.last() == c {
        s.len() - 1
    } else {
        last_index_of(s.drop_last(), c)
    }
}

/// The file name of a path, as `Path::file_name` finds it: the last
/// component, after dropping trailing separators and `.` components; none
/// for an empty path, a root, or a last component `..`.
pub open spec fn file_name_of(p: Seq<char>) -> Option<Seq<char>>
    decreases p.len(),
{
    if p.len() == 0 {
        None
    } else if p.last() == '/' {
        file_name_of(p.drop_last())
    } else {
        let k = last_index_of(p, '/');
        let seg = p.subrange(k + 1, p.len() as int);
        if seg == seq!['.'] {
            if k < 0 {
                None
            } else {
                proof {
                    lemma_last_index_of_bounds(p, '/');
                }
                file_name_of(p.subrange(0, k))
            }
        } else if seg == seq!['.', '.'] {
            None
        } else {
            Some(seg)
        }
    }
}

/// The extension of a file name, as `Path::extension` finds it: what
/// follows the last `.`, unless that dot starts the name.
pub open spec fn extension_of(name: Seq<char>) -> Option<Seq<char>> {
    let k = last_index_of(name, '.');
    if k <= 0 {
        None
    } else {
        Some(name.subrange(k + 1, name.len() as int))
    }
}

/// The extensions of the audio formats the player indexes.
pub open spec fn audio_extensions() -> Seq<Seq<char>> {
    seq!["mp3"@, "flac"@, "ogg"@, "wav"@, "m4a"@, "aac"@, "opus"@, "alac"@, "wma"@, "mp4"@, "m4b"@]
}

/// A path names an audio file: its file name has an extension whose
/// lowercase form is one of the audio extensions.
pub open spec fn audio_path(p: Seq<char>) -> bool {
    match file_name_of(p) {
        Some(name) => match extension_of(name) {
            Some(ext) => audio_extensions().contains(lowercase(ext)),
            None => false,
        },
        None => false,
    }
}

/// The last index of `c` lies in `s`, and the character there is `c`.
pub proof fn lemma_last_index_of_bounds(s: Seq<char>, c: char)
    ensures
        -1 <= last_index_of(s, c) < s.len(),
        last_index_of(s, c) >= 0 ==> s[last_index_of(s, c)] == c,
    decreases s.len(),
{
    if s.len() > 0 && s.last() != c {
        lemma_last_index_of_bounds(s.drop_last(), c);
    }
}

/// The index of the last `c` among the first `end` characters of `v`.
fn last_index_in(v: &Vec<char>, end: usize, c: char) -> (r: Option<usize>)
    requires
        end <= v@.len(),
    ensures
        match r {
            Some(k) => k as int == last_index_of(v@.take(end as int), c),
            None => last_index_of(v@.take(end as int), c) == -1,
        },
{
    let mut i = end;
    while i > 0
        invariant
            i <= end <= v@.len(),
            last_index_of(v@.take(end as int), c) == last_index_of(v@.take(i as int), c),
        decreases i,
    {
        assert(v@.take(i as int).drop_last() =~= v@.take(i - 1));
        if v[i - 1] == c {
            return Some(i - 1);
        }
        i = i - 1;
    }
    None
}

/// The range `[start, end)` of the file name within the path's
/// characters, if the path has one.
pub(crate) fn file_name_range(v: &Vec<char>) -> (r: Option<(usize, usize)>)
    ensures
        match r {
            Some((start, end)) => start <= end <= v@.len() && file_name_of(v@) == Some(
                v@.subrange(start as int, end as int),
            ),
            None => file_name_of(v@) is None,
        },
{
    let mut end = v.len();
    assert(v@.take(end as int) =~= v@);
    loop
        invariant
            end <= v@.len(),
            file_name_of(v@) == file_name_of(v@.take(end as int)),
        decreases end,
    {
        let ghost p = v@.take(end as int);
        if end == 0 {
            return None;
        }
        if v[end - 1] == '/' {
            assert(p.drop_last() =~= v@.take(end - 1));
            end = end - 1;
        } else {
            let k = last_index_in(v, end, '/');
            proof {
                lemma_last_index_of_bounds(p, '/');
            }
            let start: usize = match k {
                Some(k) => k + 1,
                None => 0,
            };
            proof {
                assert(p.subrange(start as int, end as int) =~= v@.subrange(start as int, end as int));
            }
            if end - start == 1 && v[start] == '.' {
                assert(p.subrange(start as int, end as int) =~= seq!['.']);
                match k {
                    Some(k) => {
                        assert(p.subrange(0, k as int) =~= v@.take(k as int));
                        end = k;
                    },
                    None => {
                        return None;
                    },
                }
            } else if end - start == 2 && v[start] == '.' && v[start + 1] == '.' {
                assert(p.subrange(start as int, end as int) =~= seq!['.', '.']);
                return None;
            } else {
                proof {
                    let seg = p.subrange(start as int, end as int);
                    if seg == seq!['.'] {
                        assert(seg.len() == 1 && seg[0] == v@[start as int]);
                    }
                    if seg == seq!['.', '.'] {
                        assert(seg.len() == 2 && seg[0] == v@[start as int] && seg[1] == v@[start + 1]);
                    }
                }
                return Some((start, end));
            }
        }
    }
}

/// Whether the lowercase extension is one of the audio extensions.
fn is_audio_extension(ext: &str) -> (r: bool)
    ensures
        r == audio_extensions().contains(ext@),
{
    let r = str_eq(ext, "mp3") || str_eq(ext, "flac") || str_eq(ext, "ogg") || str_eq(ext, "wav")
        || str_eq(ext, "m4a") || str_eq(ext, "aac") || str_eq(ext, "opus") || str_eq(ext, "alac")
        || str_eq(ext, "wma") || str_eq(ext, "mp4") || str_eq(ext, "m4b");
    proof {
        let a = audio_extensions();
        if r {
            assert(ext@ == a[0] || ext@ == a[1] || ext@ == a[2] || ext@ == a[3] || ext@ == a[4]
                || ext@ == a[5] || ext@ == a[6] || ext@ == a[7] || ext@ == a[8] || ext@ == a[9]
                || ext@ == a[10]);
        } else {
            assert forall|i: int| 0 <= i < a.len() implies a[i] != ext@ by {
                assert(i == 0 || i == 1 || i == 2 || i == 3 || i == 4 || i == 5 || i == 6 || i == 7
                    || i == 8 || i == 9 || i == 10);
            }
        }
    }
    r
}

/// Whether the file at `path` is indexed as audio: its extension is one of
/// mp3, flac, ogg, wav, m4a, aac, opus, alac, wma, mp4 and m4b, in any
/// letter case.
pub fn is_audio_file(path: &str) -> (r: bool)
    ensures
        r == audio_path(path@),
{
    let v = chars_of(path);
    match file_name_range(&v) {
        Some((start, end)) => {
            let ghost name = v@.subrange(start as int, end as int);
            let mut nv: Vec<char> = Vec::new();
            let mut i = start;
            while i < end
                invariant
                    start <= i <= end <= v@.len(),
                    nv@ == v@.subrange(start as int, i as int),
                decreases end - i,
            {
                nv.push(v[i]);
                i = i + 1;
            }
            assert(nv@ == name);
            let k = last_index_in(&nv, nv.len(), '.');
            assert(nv@.take(nv@.len() as int) =~= nv@);
            match k {
                Some(k) if k > 0 => {
                    proof {
                        lemma_last_index_of_bounds(name, '.');
                    }
                    let mut ev: Vec<char> = Vec::new();
                    let mut j = k + 1;
                    while j < nv.len()
                        invariant
                            k < j <= nv@.len(),
                            ev@ == nv@.subrange(k + 1, j as int),
                        decreases nv.len() - j,
                    {
                        ev.push(nv[j]);
                        j = j + 1;
                    }
                    let ext = string_from_chars(&ev);
                    let lower = to_lowercase(ext.as_str());
                    is_audio_extension(lower.as_str())
                },
                _ => false,
            }
        },
        None => false,
    }
}

} // verus!
