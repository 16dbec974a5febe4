//! Filesystem paths of the player's files, as strings.
use vstd::prelude::*;
use crate::text::{chars_of, string_from_chars};

verus! {

broadcast use vstd::string::group_string_axioms;

/// `base` joined with `part` as `PathBuf::push` joins them: an absolute
/// `part` replaces `base`; otherwise a `/` separates them unless `base` is
/// empty or already ends with one.
pub open spec fn joined(base: Seq<char>, part: Seq<char>) -> Seq<char> {
    if part.len() > 0 && part[0] == '/' {
        part
    } else if base.len() == 0 || base.last() == '/' {
        base + part
    } else {
        base + seq!['/'] + part
    }
}

/// Joins a path component onto a base path.
pub fn path_join(base: &str, part: &str) -> (r: String)
    ensures
        r@ == joined(base@, part@),
{
    let b = chars_of(base);
    let p = chars_of(part);
    if p.len() > 0 && p[0] == '/' {
        return part.to_string();
    }
    let mut out = b;
    if out.len() > 0 && out[out.len() - 1] != '/' {
        out.push('/');
    }
    let mut i: usize = 0;
    let ghost start = out@;
    while i < p.len()
        invariant
            i <= p.len(),
            out@ == start + p@.take(i as int),
        decreases p.len() - i,
    {
        out.push(p[i]);
        i = i + 1;
        assert(out@ =~= start + p@.take(i as int));
    }
    assert(p@.take(p.len() as int) =~= p@);
    string_from_chars(&out)
}

/// The user's cache directory (`dirs::cache_dir`), as a string; it depends
/// on the environment, so nothing is claimed of it.
#[verifier::external_body]
fn cache_dir() -> (r: Option<String>) {
    dirs::cache_dir().map(|p| p.to_string_lossy().into_owned())
}

/// The user's configuration directory (`dirs::config_dir`), as a string;
/// nothing is claimed of it.
#[verifier::external_body]
fn config_dir() -> (r: Option<String>) {
    dirs::config_dir().map(|p| p.to_string_lossy().into_owned())
}

/// The cover cache directory under a cache directory (`/tmp` when the
/// system has none).
pub open spec fn covers_dir_in(cache: Option<Seq<char>>) -> Seq<char> {
    let base = match cache {
        Some(c) => c,
        None => "/tmp"@,
    };
    joined(joined(base, "musico"@), "covers"@)
}

/// The thumbnail path of a song's cover inside a cache directory.
pub open spec fn cover_path_in(cache: Option<Seq<char>>, song_id: Seq<char>) -> Seq<char> {
    joined(covers_dir_in(cache), song_id + ".jpg"@)
}

/// Directory for cover thumbnails inside the given cache directory.
pub fn cover_cache_dir_in(cache: Option<String>) -> (r: String)
    ensures
        r@ == covers_dir_in(match cache {
            Some(c) => Some(c@),
            None => None,
        }),
{
    let base = match cache {
        Some(c) => c,
        None => "/tmp".to_string(),
    };
    let m = path_join(base.as_str(), "musico");
    path_join(m.as_str(), "covers")
}

/// Retrieves the system cache directory for cover thumbnails.
pub fn cover_cache_dir() -> (r: String)
    ensures
        exists|c: Option<Seq<char>>| r@ == #[trigger] covers_dir_in(c),
{
    let c = cache_dir();
    let r = cover_cache_dir_in(c);
    r
}

/// The path of the cached JPEG thumbnail of a song cover under the given
/// cache directory (`/tmp` when there is none).
pub fn cover_path_for(cache: Option<String>, song_id: &str) -> (r: String)
    ensures
        r@ == cover_path_in(match cache {
            Some(c) => Some(c@),
            None => None,
        }, song_id@),
{
    let dir = cover_cache_dir_in(cache);
    let mut name = song_id.to_string();
    name.append(".jpg");
    path_join(dir.as_str(), name.as_str())
}

/// Gets the path of the cached JPEG thumbnail of a song cover.
pub fn get_cover_path(song_id: &str) -> (r: String)
    ensures
        exists|c: Option<Seq<char>>| r@ == #[trigger] cover_path_in(c, song_id@),
{
    let c = cache_dir();
    cover_path_for(c, song_id)
}

/// The settings file inside a configuration directory.
pub open spec fn settings_path_in(config: Seq<char>) -> Seq<char> {
    joined(joined(config, "musico"@), "settings.json"@)
}

/// The settings file under the given configuration directory, if there is one.
pub fn settings_path_from(config: Option<String>) -> (r: Option<String>)
    ensures
        match config {
            Some(c) => r matches Some(p) && p@ == settings_path_in(c@),
            None => r is None,
        },
{
    match config {
        Some(c) => {
            let d = path_join(c.as_str(), "musico");
            let p = path_join(d.as_str(), "settings.json");
            Some(p)
        },
        None => None,
    }
}

/// The settings file path, when the system has a configuration directory.
pub fn config_path() -> (r: Option<String>)
    ensures
        r matches Some(p) ==> exists|c: Seq<char>| p@ == #[trigger] settings_path_in(c),
{
    let c = config_dir();
    settings_path_from(c)
}

/// `s` ends with `tail`.
pub open spec fn ends_with(s: Seq<char>, tail: Seq<char>) -> bool {
    tail.len() <= s.len() && s.subrange(s.len() - tail.len(), s.len() as int) == tail
}

/// Joining a relative component puts it at the end of the path.
proof fn lemma_joined_ends_with(base: Seq<char>, part: Seq<char>)
    requires
        part.len() > 0,
        part[0] != '/',
    ensures
        ends_with(joined(base, part), part),
        joined(base, part).len() > 0,
{
    let j = joined(base, part);
    assert(j.subrange(j.len() - part.len(), j.len() as int) =~= part);
}

/// Cover paths (as `cover_path_for` computes them for a given cache
/// directory): the covers directory under any cache directory ends with
/// `musico/covers`; the cover of a song whose id holds no `/` lies directly
/// in it, named `<id>.jpg`; and under one cache directory two such songs
/// share a cover path only when their ids are equal.
pub proof fn lemma_cover_path_layout(cache: Option<Seq<char>>, id1: Seq<char>, id2: Seq<char>)
    requires
        forall|i: int| 0 <= i < id1.len() ==> id1[i] != '/',
        forall|i: int| 0 <= i < id2.len() ==> id2[i] != '/',
    ensures
        ends_with(covers_dir_in(cache), "musico/covers"@),
        cover_path_in(cache, id1) == covers_dir_in(cache) + seq!['/'] + id1 + ".jpg"@,
        cover_path_in(cache, id1) == cover_path_in(cache, id2) <==> id1 == id2,
{
    reveal_strlit("musico");
    reveal_strlit("covers");
    reveal_strlit(".jpg");
    reveal_strlit("musico/covers");
    reveal_strlit("/tmp");
    let base = match cache {
        Some(c) => c,
        None => "/tmp"@,
    };
    let m = joined(base, "musico"@);
    lemma_joined_ends_with(base, "musico"@);
    let d = covers_dir_in(cache);
    assert(m.last() == 'o') by {
        assert(m[m.len() - 1] == m.subrange(m.len() - 6, m.len() as int)[5]);
    }
    assert(d == m + seq!['/'] + "covers"@);
    assert(d.subrange(d.len() - 13, d.len() as int) =~= "musico/covers"@) by {
        assert forall|k: int| 0 <= k < 6 implies d[d.len() - 13 + k] == "musico"@[k] by {
            assert(m[m.len() - 6 + k] == m.subrange(m.len() - 6, m.len() as int)[k]);
        }
    }
    assert(d.last() == 's');
    let f1 = id1 + ".jpg"@;
    let f2 = id2 + ".jpg"@;
    assert(f1[0] != '/') by {
        if id1.len() > 0 {
            assert(f1[0] == id1[0]);
        }
    }
    assert(f2[0] != '/') by {
        if id2.len() > 0 {
            assert(f2[0] == id2[0]);
        }
    }
    assert(cover_path_in(cache, id1) =~= d + seq!['/'] + id1 + ".jpg"@);
    assert(cover_path_in(cache, id2) =~= d + seq!['/'] + id2 + ".jpg"@);
    if cover_path_in(cache, id1) == cover_path_in(cache, id2) {
        let p = cover_path_in(cache, id1);
        assert(id1.len() == id2.len());
        assert(id1 =~= p.subrange(d.len() + 1int, d.len() + 1int + id1.len()));
        assert(id2 =~= p.subrange(d.len() + 1int, d.len() + 1int + id2.len()));
    }
}

} // verus!
