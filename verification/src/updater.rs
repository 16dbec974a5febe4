//! Release checks: version comparison and selection of the Linux binary.
use vstd::prelude::*;
use crate::text::{
    all_digits, chars_of, contains_seq, digits_value, find_char, first_index_of,
    is_digit, lemma_first_index_of, lemma_first_index_of_bounds, range_all_digits, str_contains, decimal, push_decimal, string_from_chars,
};

verus! {

broadcast use vstd::string::group_string_axioms;

/// The value of `s` as `str::parse::<u32>` reads it: an optional `+`, then
/// one or more decimal digits, at most `u32::MAX`.
pub open spec fn u32_value(s: Seq<char>) -> Option<int> {
    let body = if s.len() > 0 && s[0] == '+' { s.drop_first() } else { s };
    if body.len() > 0 && all_digits(body) && digits_value(body) <= u32::MAX {
        Some(digits_value(body))
    } else {
        None
    }
}

/// The dot-separated components of `s` that read as `u32`, in order
/// (components that do not are skipped).
pub open spec fn version_numbers(s: Seq<char>) -> Seq<int>
    decreases s.len(),
{
    let k = first_index_of(s, '.');
    let here = match u32_value(s.subrange(0, k)) {
        Some(n) => seq![n],
        None => Seq::empty(),
    };
    if k >= s.len() || k < 0 {
        here
    } else {
        here + version_numbers(s.subrange(k + 1, s.len() as int))
    }
}

/// The `i`-th number of `nums`, or 0 when there are fewer.
pub open spec fn nth_or_zero(nums: Seq<int>, i: int) -> int {
    if i < nums.len() { nums[i] } else { 0 }
}

/// `(major, minor, patch)` of a version string, missing parts reading 0.
pub open spec fn version_triple(s: Seq<char>) -> (int, int, int) {
    let n = version_numbers(s);
    (nth_or_zero(n, 0), nth_or_zero(n, 1), nth_or_zero(n, 2))
}

/// Lexicographic order on triples.
pub open spec fn triple_greater(a: (int, int, int), b: (int, int, int)) -> bool {
    a.0 > b.0 || (a.0 == b.0 && (a.1 > b.1 || (a.1 == b.1 && a.2 > b.2)))
}

/// `remote` is a newer version than `current`.
pub open spec fn newer(remote: Seq<char>, current: Seq<char>) -> bool {
    triple_greater(version_triple(remote), version_triple(current))
}

proof fn lemma_digits_prefix_le(s: Seq<char>, j: int)
    requires
        all_digits(s),
        0 <= j <= s.len(),
    ensures
        0 <= digits_value(s.take(j)) <= digits_value(s),
    decreases s.len() - j,
{
    if j < s.len() {
        lemma_digits_prefix_le(s, j + 1);
        assert(s.take(j + 1).drop_last() =~= s.take(j));
        assert(s[j] == s.take(j + 1).last());
    } else {
        assert(s.take(j) =~= s);
        lemma_digits_nonneg(s);
    }
}

proof fn lemma_digits_nonneg(s: Seq<char>)
    requires
        all_digits(s),
    ensures
        digits_value(s) >= 0,
    decreases s.len(),
{
    if s.len() > 0 {
        lemma_digits_nonneg(s.drop_last());
        assert(s[s.len() - 1] == s.last());
    }
}

/// Reads `v[lo..hi]` as `u32_value` describes.
fn parse_u32(v: &Vec<char>, lo: usize, hi: usize) -> (r: Option<u32>)
    requires
        lo <= hi <= v.len(),
    ensures
        match u32_value(v@.subrange(lo as int, hi as int)) {
            Some(n) => r matches Some(x) && x == n,
            None => r is None,
        },
{
    let ghost s = v@.subrange(lo as int, hi as int);
    let start = if lo < hi && v[lo] == '+' { lo + 1 } else { lo };
    proof {
        let body = if s.len() > 0 && s[0] == '+' { s.drop_first() } else { s };
        assert(body =~= v@.subrange(start as int, hi as int));
    }
    if start >= hi || !range_all_digits(v, start, hi) {
        return None;
    }
    let ghost body = v@.subrange(start as int, hi as int);
    let mut val: u64 = 0;
    let mut j = start;
    proof {
        assert(body.take(0) =~= Seq::<char>::empty());
    }
    assert(u32_value(s) == (if digits_value(body) <= u32::MAX { Some(digits_value(body)) } else { None::<int> }));
    while j < hi
        invariant
            u32_value(s) == (if digits_value(body) <= u32::MAX { Some(digits_value(body)) } else { None::<int> }),
            s == v@.subrange(lo as int, hi as int),
            lo <= start <= j <= hi <= v.len(),
            body == v@.subrange(start as int, hi as int),
            all_digits(body),
            val == digits_value(body.take(j - start)),
            val <= u32::MAX,
        decreases hi - j,
    {
        let c = v[j];
        assert(body[j - start] == c);
        let d = (c as u32 - '0' as u32) as u64;
        let next = val * 10 + d;
        assert(body.take(j - start + 1).drop_last() =~= body.take(j - start));
        assert(digits_value(body.take(j - start + 1)) == next);
        if next > 4294967295 {
            proof {
                lemma_digits_prefix_le(body, j - start + 1);
                assert(digits_value(body) > u32::MAX);
                assert(u32_value(s) is None);
            }
            return None;
        }
        val = next;
        j = j + 1;
    }
    assert(body.take(hi - start) =~= body);
    Some(val as u32)
}

/// The components of `v[lo..hi]` that read as numbers (see `version_numbers`).
fn parse_version_numbers(v: &Vec<char>) -> (r: Vec<u32>)
    ensures
        r@.map_values(|x: u32| x as int) == version_numbers(v@),
{
    let n = v.len();
    let mut out: Vec<u32> = Vec::new();
    let mut start: usize = 0;
    proof {
        assert(v@.subrange(0, n as int) =~= v@);
    }
    loop
        invariant_except_break
            out@.map_values(|x: u32| x as int) + version_numbers(v@.subrange(start as int, n as int))
                == version_numbers(v@),
        invariant
            n == v.len(),
            start <= n,
        ensures
            out@.map_values(|x: u32| x as int) == version_numbers(v@),
        decreases n - start,
    {
        let ghost rest = v@.subrange(start as int, n as int);
        let ghost before = out@.map_values(|x: u32| x as int);
        let k = find_char(v, start, n, '.');
        proof {
            lemma_first_index_of_bounds(rest, '.');
            assert(rest.subrange(0, k - start) =~= v@.subrange(start as int, k as int));
            if k < n {
                assert(rest.subrange(k - start + 1, rest.len() as int) =~= v@.subrange(k + 1, n as int));
            }
        }
        let ghost here = match u32_value(rest.subrange(0, k - start)) {
            Some(x) => seq![x],
            None => Seq::<int>::empty(),
        };
        match parse_u32(v, start, k) {
            Some(x) => {
                out.push(x);
            },
            None => {},
        }
        proof {
            assert(out@.map_values(|x: u32| x as int) =~= before + here);
        }
        if k >= n {
            proof {
                assert(version_numbers(rest) == here);
            }
            break;
        }
        start = k + 1;
    }
    out
}

/// `(major, minor, patch)` of a version string.
pub fn parse_version(s: &str) -> (r: (u32, u32, u32))
    ensures
        (r.0 as int, r.1 as int, r.2 as int) == version_triple(s@),
{
    let v = chars_of(s);
    let nums = parse_version_numbers(&v);
    assert(nums@.len() == version_numbers(s@).len());
    let a = if nums.len() > 0 { nums[0] } else { 0 };
    let b = if nums.len() > 1 { nums[1] } else { 0 };
    let c = if nums.len() > 2 { nums[2] } else { 0 };
    proof {
        let m = nums@.map_values(|x: u32| x as int);
        if nums.len() > 0 { assert(m[0] == nums@[0] as int); }
        if nums.len() > 1 { assert(m[1] == nums@[1] as int); }
        if nums.len() > 2 { assert(m[2] == nums@[2] as int); }
    }
    (a, b, c)
}

/// Simple semver comparison: returns `true` if `remote` is newer than
/// `current`. Components that are not numbers are skipped; missing ones
/// count as zero.
pub fn is_newer(remote: &str, current: &str) -> (r: bool)
    ensures
        r == newer(remote@, current@),
        ({
            let a = version_triple(remote@);
            let b = version_triple(current@);
            r <==> (a.0 > b.0 || (a.0 == b.0 && a.1 > b.1) || (a.0 == b.0 && a.1 == b.1 && a.2 > b.2))
        }),
{
    let a = parse_version(remote);
    let b = parse_version(current);
    a.0 > b.0 || (a.0 == b.0 && (a.1 > b.1 || (a.1 == b.1 && a.2 > b.2)))
}

/// `s` without its leading `c` characters, as `str::trim_start_matches`.
pub open spec fn strip_leading(s: Seq<char>, c: char) -> Seq<char>
    decreases s.len(),
{
    if s.len() > 0 && s[0] == c {
        strip_leading(s.drop_first(), c)
    } else {
        s
    }
}

/// Removes every leading `'v'` from a release tag.
pub fn tag_version(tag: &str) -> (r: String)
    ensures
        r@ == strip_leading(tag@, 'v'),
{
    let v = chars_of(tag);
    let mut a: usize = 0;
    proof {
        assert(v@.subrange(0, v.len() as int) =~= v@);
    }
    while a < v.len() && v[a] == 'v'
        invariant
            v@ == tag@,
            a <= v.len(),
            strip_leading(tag@, 'v') == strip_leading(v@.subrange(a as int, v.len() as int), 'v'),
        decreases v.len() - a,
    {
        assert(v@.subrange(a as int, v.len() as int).drop_first() =~= v@.subrange(a + 1, v.len() as int));
        a = a + 1;
    }
    tag.substring_char(a, v.len()).to_string()
}

/// A downloadable file attached to a release: its name and download URL
/// (either may be missing from the release description).
pub struct ReleaseAsset {
    pub name: Option<String>,
    pub download_url: Option<String>,
}

/// Why a release description could not be used.
#[derive(Debug, Clone, Copy, PartialEq, Eq)]
pub enum ReleaseError {
    MissingTag,
    MissingAssets,
    NoLinuxBinary,
}

impl ReleaseError {
    /// The message shown to the user.
    pub fn message(&self) -> (r: &'static str)
        ensures
            *self is MissingTag ==> r@ == "Missing tag_name in release"@,
            *self is MissingAssets ==> r@ == "Missing assets in release"@,
            *self is NoLinuxBinary ==> r@ == "No Linux x86_64 binary found in release assets"@,
    {
        match self {
            ReleaseError::MissingTag => "Missing tag_name in release",
            ReleaseError::MissingAssets => "Missing assets in release",
            ReleaseError::NoLinuxBinary => "No Linux x86_64 binary found in release assets",
        }
    }
}

/// An asset name denotes a Linux x86-64 build.
pub open spec fn is_linux_x86_name(name: Seq<char>) -> bool {
    contains_seq(name, "linux"@) && (contains_seq(name, "x86_64"@) || contains_seq(name, "amd64"@))
}

/// The name of an asset, the empty string when it has none.
pub open spec fn asset_name(a: ReleaseAsset) -> Seq<char> {
    match a.name {
        Some(n) => n@,
        None => Seq::empty(),
    }
}

/// Index of the first asset with a Linux x86-64 name, or `assets.len()`.
pub open spec fn first_linux_asset(assets: Seq<ReleaseAsset>) -> int
    decreases assets.len(),
{
    if assets.len() == 0 {
        0
    } else if is_linux_x86_name(asset_name(assets[0])) {
        0
    } else {
        1 + first_linux_asset(assets.drop_first())
    }
}

proof fn lemma_first_linux_asset(assets: Seq<ReleaseAsset>, k: int)
    requires
        0 <= k <= assets.len(),
        forall|j: int| 0 <= j < k ==> !is_linux_x86_name(asset_name(#[trigger] assets[j])),
        k < assets.len() ==> is_linux_x86_name(asset_name(assets[k])),
    ensures
        first_linux_asset(assets) == k,
    decreases k,
{
    if k > 0 {
        assert forall|j: int| 0 <= j < k - 1 implies !is_linux_x86_name(asset_name(#[trigger] assets.drop_first()[j])) by {
            assert(assets.drop_first()[j] == assets[j + 1]);
        }
        lemma_first_linux_asset(assets.drop_first(), k - 1);
    }
}

/// The asset a release offers is the first whose name mentions `linux`
/// together with `x86_64` or `amd64`: it has such a name, and no asset
/// before it does.
pub proof fn lemma_linux_asset_choice(assets: Seq<ReleaseAsset>)
    ensures
        0 <= first_linux_asset(assets) <= assets.len(),
        ({
            let k = first_linux_asset(assets);
            &&& k < assets.len() ==> contains_seq(asset_name(assets[k]), "linux"@) && (contains_seq(
                asset_name(assets[k]),
                "x86_64"@,
            ) || contains_seq(asset_name(assets[k]), "amd64"@))
            &&& forall|j: int|
                0 <= j < k ==> !(contains_seq(asset_name(#[trigger] assets[j]), "linux"@) && (contains_seq(
                    asset_name(assets[j]),
                    "x86_64"@,
                ) || contains_seq(asset_name(assets[j]), "amd64"@)))
        }),
    decreases assets.len(),
{
    if assets.len() > 0 && !is_linux_x86_name(asset_name(assets[0])) {
        let rest = assets.drop_first();
        lemma_linux_asset_choice(rest);
        assert forall|j: int| 0 <= j < first_linux_asset(assets) implies !(contains_seq(
            asset_name(#[trigger] assets[j]),
            "linux"@,
        ) && (contains_seq(asset_name(assets[j]), "x86_64"@) || contains_seq(asset_name(assets[j]), "amd64"@))) by {
            if j > 0 {
                assert(assets[j] == rest[j - 1]);
            }
        }
        if first_linux_asset(assets) < assets.len() {
            assert(assets[first_linux_asset(assets)] == rest[first_linux_asset(rest)]);
        }
    }
}

/// Whether an asset name denotes a Linux x86-64 build: its name mentions
/// `linux`, and `x86_64` or `amd64`.
pub fn is_linux_x86_asset(name: &str) -> (r: bool)
    ensures
        r == is_linux_x86_name(name@),
        r == (contains_seq(name@, "linux"@) && (contains_seq(name@, "x86_64"@) || contains_seq(name@, "amd64"@))),
{
    str_contains(name, "linux") && (str_contains(name, "x86_64") || str_contains(name, "amd64"))
}

/// Decides on a release: `Ok(None)` when its version is not newer than
/// `current`, `Ok(Some((version, url)))` with the download URL of the first
/// Linux x86-64 asset when it is, and an error when the description lacks
/// what is needed (the tag; the assets, once the version is known to be
/// newer; a URL on the first Linux asset).
pub fn evaluate_release(
    tag_name: Option<String>,
    current: &str,
    assets: Option<Vec<ReleaseAsset>>,
) -> (r: Result<Option<(String, String)>, ReleaseError>)
    ensures
        tag_name is None ==> r == Err::<Option<(String, String)>, ReleaseError>(ReleaseError::MissingTag),
        tag_name matches Some(t) ==> {
            let version = strip_leading(t@, 'v');
            if !newer(version, current@) {
                r matches Ok(None)
            } else {
                match assets {
                    None => r matches Err(ReleaseError::MissingAssets),
                    Some(list) => {
                        let k = first_linux_asset(list@);
                        if k < list@.len() && list@[k].download_url is Some {
                            r matches Ok(Some((v, u))) && v@ == version
                                && u@ == list@[k].download_url->0@
                        } else {
                            r matches Err(ReleaseError::NoLinuxBinary)
                        }
                    },
                }
            }
        },
{
    let tag = match tag_name {
        Some(t) => t,
        None => {
            return Err(ReleaseError::MissingTag);
        },
    };
    let version = tag_version(tag.as_str());
    if !is_newer(version.as_str(), current) {
        return Ok(None);
    }
    let list = match assets {
        Some(l) => l,
        None => {
            return Err(ReleaseError::MissingAssets);
        },
    };
    let mut i: usize = 0;
    while i < list.len()
        invariant
            i <= list.len(),
            forall|j: int| 0 <= j < i ==> !is_linux_x86_name(asset_name(#[trigger] list@[j])),
        ensures
            i <= list.len(),
            forall|j: int| 0 <= j < i ==> !is_linux_x86_name(asset_name(#[trigger] list@[j])),
            i < list.len() ==> is_linux_x86_name(asset_name(list@[i as int])),
        decreases list.len() - i,
    {
        let hit = match &list[i].name {
            Some(n) => is_linux_x86_asset(n.as_str()),
            None => {
                proof {
                    reveal_strlit("linux");
                    assert(!contains_seq(Seq::<char>::empty(), "linux"@));
                }
                false
            },
        };
        assert(hit == is_linux_x86_name(asset_name(list@[i as int])));
        if hit {
            break;
        }
        i = i + 1;
    }
    proof {
        lemma_first_linux_asset(list@, i as int);
    }
    if i < list.len() {
        match &list[i].download_url {
            Some(u) => Ok(Some((version, u.clone()))),
            None => Err(ReleaseError::NoLinuxBinary),
        }
    } else {
        Err(ReleaseError::NoLinuxBinary)
    }
}

/// The numbers of a dotted version: `n` digits and the rest after a dot
/// give `n`'s value followed by the numbers of the rest.
proof fn lemma_version_numbers_head(a: Seq<char>, rest: Seq<char>)
    requires
        a.len() > 0,
        all_digits(a),
        digits_value(a) <= u32::MAX,
    ensures
        version_numbers(a + seq!['.'] + rest) == seq![digits_value(a)] + version_numbers(rest),
{
    let s = a + seq!['.'] + rest;
    assert forall|j: int| 0 <= j < a.len() implies s[j] != '.' by {
        assert(s[j] == a[j]);
        assert(is_digit(a[j]));
    }
    lemma_first_index_of(s, '.', a.len() as int);
    assert(s.subrange(0, a.len() as int) =~= a);
    assert(s.subrange(a.len() + 1int, s.len() as int) =~= rest);
    assert(is_digit(a[0]));
}

/// A version written `major.minor.patch` in decimal digits (each at most
/// `u32::MAX`) reads as exactly those three numbers.
pub proof fn lemma_dotted_version(a: Seq<char>, b: Seq<char>, c: Seq<char>)
    requires
        a.len() > 0 && all_digits(a) && digits_value(a) <= u32::MAX,
        b.len() > 0 && all_digits(b) && digits_value(b) <= u32::MAX,
        c.len() > 0 && all_digits(c) && digits_value(c) <= u32::MAX,
    ensures
        version_triple(a + seq!['.'] + b + seq!['.'] + c) == (digits_value(a), digits_value(b), digits_value(c)),
{
    let bc = b + seq!['.'] + c;
    assert(a + seq!['.'] + b + seq!['.'] + c =~= a + seq!['.'] + bc);
    lemma_version_numbers_head(a, bc);
    lemma_version_numbers_head(b, c);
    assert forall|j: int| 0 <= j < c.len() implies c[j] != '.' by {
        assert(is_digit(c[j]));
    }
    lemma_first_index_of(c, '.', c.len() as int);
    assert(c.subrange(0, c.len() as int) =~= c);
    assert(is_digit(c[0]));
    assert(version_numbers(c) == seq![digits_value(c)]);
    let n = version_numbers(a + seq!['.'] + bc);
    assert(n =~= seq![digits_value(a), digits_value(b), digits_value(c)]);
}

/// How versions compare, component by component: a different major number
/// decides; with equal majors a different minor number decides; with equal
/// majors and minors the patch number decides (so `1.0.1` is newer than
/// `1.0.0`); identical triples are never newer than each other.
pub proof fn lemma_newer_by_components(remote: Seq<char>, current: Seq<char>)
    ensures
        ({
            let a = version_triple(remote);
            let b = version_triple(current);
            &&& a.0 != b.0 ==> (newer(remote, current) <==> a.0 > b.0)
            &&& a.0 == b.0 && a.1 != b.1 ==> (newer(remote, current) <==> a.1 > b.1)
            &&& a.0 == b.0 && a.1 == b.1 ==> (newer(remote, current) <==> a.2 > b.2)
        }),
{
}

/// "Newer" is a strict order on versions: no version is newer than
/// itself, two versions are never each newer than the other, and a version
/// newer than a second that is newer than a third is newer than the third.
pub proof fn lemma_newer_strict_order(a: Seq<char>, b: Seq<char>, c: Seq<char>)
    ensures
        !newer(a, a),
        !(newer(a, b) && newer(b, a)),
        newer(a, b) && newer(b, c) ==> newer(a, c),
{
}

/// Why the release server's answer was refused before its body was read.
#[derive(Debug, Clone, Copy, PartialEq, Eq)]
pub enum StatusError {
    /// The server answered "not found": the project has no release.
    NoReleases,
    /// Any other status outside the success range, with its code.
    Failed(u16),
}

/// Whether an HTTP status code is a success (`200..=299`).
pub open spec fn status_success(code: int) -> bool {
    200 <= code <= 299
}

/// What the HTTP status of the release server's answer decides: not found
/// means there are no releases; any other status outside the success range
/// is a failure with that status; a success lets the body be read.
pub fn status_error(code: u16) -> (r: Option<StatusError>)
    ensures
        code == 404 ==> r == Some(StatusError::NoReleases),
        code != 404 && status_success(code as int) ==> r is None,
        code != 404 && !status_success(code as int) ==> r == Some(StatusError::Failed(code)),
{
    if code == 404 {
        Some(StatusError::NoReleases)
    } else if 200 <= code && code <= 299 {
        None
    } else {
        Some(StatusError::Failed(code))
    }
}

impl StatusError {
    /// The message shown to the user; `reason` is the status's reason phrase
    /// as the HTTP client reports it (`Service Unavailable`).
    pub fn message(&self, reason: &str) -> (r: String)
        ensures
            *self is NoReleases ==> r@ == "No releases found on GitHub"@,
            *self matches StatusError::Failed(c) ==> r@ == "GitHub API returned "@ + decimal(c as nat) + seq![' ']
                + reason@,
    {
        match self {
            StatusError::NoReleases => "No releases found on GitHub".to_string(),
            StatusError::Failed(c) => {
                let mut out = chars_of("GitHub API returned ");
                push_decimal(&mut out, *c as u64);
                out.push(' ');
                let rs = chars_of(reason);
                let ghost head = out@;
                let mut i: usize = 0;
                while i < rs.len()
                    invariant
                        i <= rs@.len(),
                        out@ == head + rs@.take(i as int),
                    decreases rs.len() - i,
                {
                    out.push(rs[i]);
                    i = i + 1;
                    assert(out@ =~= head + rs@.take(i as int));
                }
                assert(rs@.take(rs@.len() as int) =~= rs@);
                string_from_chars(&out)
            },
        }
    }
}

} // verus!
