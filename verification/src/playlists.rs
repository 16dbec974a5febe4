//! Smart playlists: rule-based collections that follow the library.
//!
//! A playlist keeps the songs that pass all of its rules, sorted by one
//! field (stably, so songs with equal keys keep their library order), and
//! at most `max_songs` of them when that is not zero. Storing playlists is
//! the application's job.
use vstd::prelude::*;
use crate::song::{records_view, RecordView, SongRecord};
use crate::text::{
    chars_of, contains_seq, decimal, lowercase, push_decimal, str_contains, str_eq, string_from_chars,
    to_lowercase,
};

verus! {

broadcast use vstd::string::group_string_axioms;

/// How a rule tests its field. Duration thresholds are in milliseconds.
#[derive(Debug, Clone)]
pub enum FilterOp {
    Contains(String),
    Equals(String),
    GreaterThan(i64),
    LessThan(i64),
}

/// What a filter operation denotes.
pub enum OpView {
    Contains(Seq<char>),
    Equals(Seq<char>),
    GreaterThan(i64),
    LessThan(i64),
}

impl View for FilterOp {
    type V = OpView;

    open spec fn view(&self) -> OpView {
        match self {
            FilterOp::Contains(s) => OpView::Contains(s@),
            FilterOp::Equals(s) => OpView::Equals(s@),
            FilterOp::GreaterThan(v) => OpView::GreaterThan(*v),
            FilterOp::LessThan(v) => OpView::LessThan(*v),
        }
    }
}

/// A field on which a filter can operate.
#[derive(Debug, Clone, Copy, PartialEq, Eq, Structural)]
pub enum FilterField {
    Title,
    Artist,
    Album,
    DurationSecs,
}

/// A single filter rule.
#[derive(Debug, Clone)]
pub struct FilterRule {
    pub field: FilterField,
    pub op: FilterOp,
}

/// What a rule denotes.
pub struct RuleView {
    pub field: FilterField,
    pub op: OpView,
}

impl View for FilterRule {
    type V = RuleView;

    open spec fn view(&self) -> RuleView {
        RuleView { field: self.field, op: self.op@ }
    }
}

/// A smart playlist definition.
#[derive(Debug, Clone)]
pub struct SmartPlaylist {
    pub id: String,
    pub name: String,
    pub rules: Vec<FilterRule>,
    /// Maximum number of songs (0 = unlimited).
    pub max_songs: usize,
    /// `"artist"`, `"album"`, `"duration"`, or anything else for the title.
    pub sort_by: String,
    pub sort_ascending: bool,
}

/// What a playlist denotes.
pub struct PlaylistView {
    pub id: Seq<char>,
    pub name: Seq<char>,
    pub rules: Seq<RuleView>,
    pub max_songs: usize,
    pub sort_by: Seq<char>,
    pub sort_ascending: bool,
}

/// The views of a list of rules.
pub open spec fn rules_view(s: Seq<FilterRule>) -> Seq<RuleView> {
    s.map_values(|r: FilterRule| r@)
}

impl View for SmartPlaylist {
    type V = PlaylistView;

    open spec fn view(&self) -> PlaylistView {
        PlaylistView {
            id: self.id@,
            name: self.name@,
            rules: rules_view(self.rules@),
            max_songs: self.max_songs,
            sort_by: self.sort_by@,
            sort_ascending: self.sort_ascending,
        }
    }
}

/// ASCII lowercase of one character; other characters are unchanged.
pub open spec fn ascii_lower(c: char) -> char {
    if 'A' <= c && c <= 'Z' {
        ((c as int) + 32) as char
    } else {
        c
    }
}

/// Equality up to ASCII letter case, as `str::eq_ignore_ascii_case`.
pub open spec fn eq_ignore_ascii_case(a: Seq<char>, b: Seq<char>) -> bool {
    a.len() == b.len() && forall|i: int| 0 <= i < a.len() ==> ascii_lower(a[i]) == ascii_lower(b[i])
}

/// Whether a record passes a rule. Text fields match case-insensitively;
/// a comparison on a text field, or a text test on the duration, lets every
/// record through.
pub open spec fn rule_matches(rule: RuleView, r: RecordView) -> bool {
    match (rule.field, rule.op) {
        (FilterField::Title, OpView::Contains(s)) => contains_seq(lowercase(r.title), lowercase(s)),
        (FilterField::Artist, OpView::Contains(s)) => contains_seq(lowercase(r.artist), lowercase(s)),
        (FilterField::Album, OpView::Contains(s)) => contains_seq(lowercase(r.album), lowercase(s)),
        (FilterField::Title, OpView::Equals(s)) => eq_ignore_ascii_case(r.title, s),
        (FilterField::Artist, OpView::Equals(s)) => eq_ignore_ascii_case(r.artist, s),
        (FilterField::Album, OpView::Equals(s)) => eq_ignore_ascii_case(r.album, s),
        (FilterField::DurationSecs, OpView::GreaterThan(v)) => r.duration_secs * 1000 > v,
        (FilterField::DurationSecs, OpView::LessThan(v)) => r.duration_secs * 1000 < v,
        _ => true,
    }
}

/// What each rule tests, field by field: a `Contains` rule passes a record
/// when the named text field (title, artist or album), lowercased, contains
/// the lowercased needle; an `Equals` rule when that field equals the text
/// up to ASCII case; a duration rule compares the record's length in
/// milliseconds with the bound. Each text rule looks at its own field only:
/// changing the record's other fields does not change the answer.
pub proof fn lemma_rule_fields(r: RecordView, other: RecordView, s: Seq<char>, v: i64)
    ensures
        rule_matches(RuleView { field: FilterField::Title, op: OpView::Contains(s) }, r)
            == contains_seq(lowercase(r.title), lowercase(s)),
        rule_matches(RuleView { field: FilterField::Artist, op: OpView::Contains(s) }, r)
            == contains_seq(lowercase(r.artist), lowercase(s)),
        rule_matches(RuleView { field: FilterField::Album, op: OpView::Contains(s) }, r)
            == contains_seq(lowercase(r.album), lowercase(s)),
        rule_matches(RuleView { field: FilterField::Title, op: OpView::Equals(s) }, r) == (r.title.len() == s.len()
            && forall|i: int| 0 <= i < s.len() ==> ascii_lower(#[trigger] r.title[i]) == ascii_lower(s[i])),
        rule_matches(RuleView { field: FilterField::Artist, op: OpView::Equals(s) }, r) == (r.artist.len() == s.len()
            && forall|i: int| 0 <= i < s.len() ==> ascii_lower(#[trigger] r.artist[i]) == ascii_lower(s[i])),
        rule_matches(RuleView { field: FilterField::Album, op: OpView::Equals(s) }, r) == (r.album.len() == s.len()
            && forall|i: int| 0 <= i < s.len() ==> ascii_lower(#[trigger] r.album[i]) == ascii_lower(s[i])),
        rule_matches(RuleView { field: FilterField::DurationSecs, op: OpView::GreaterThan(v) }, r)
            == (r.duration_secs * 1000 > v),
        rule_matches(RuleView { field: FilterField::DurationSecs, op: OpView::LessThan(v) }, r)
            == (r.duration_secs * 1000 < v),
        other.album == r.album ==> rule_matches(RuleView { field: FilterField::Album, op: OpView::Contains(s) }, other)
            == rule_matches(RuleView { field: FilterField::Album, op: OpView::Contains(s) }, r),
        other.artist == r.artist ==> rule_matches(RuleView { field: FilterField::Artist, op: OpView::Contains(s) }, other)
            == rule_matches(RuleView { field: FilterField::Artist, op: OpView::Contains(s) }, r),
        other.title == r.title ==> rule_matches(RuleView { field: FilterField::Title, op: OpView::Contains(s) }, other)
            == rule_matches(RuleView { field: FilterField::Title, op: OpView::Contains(s) }, r),
{
}

/// Whether a record passes every rule of a playlist.
pub open spec fn playlist_matches(p: PlaylistView, r: RecordView) -> bool {
    forall|i: int| 0 <= i < p.rules.len() ==> rule_matches(#[trigger] p.rules[i], r)
}

/// The records of `lib` that pass the playlist's rules, in library order.
pub open spec fn passing(p: PlaylistView, lib: Seq<RecordView>) -> Seq<RecordView>
    decreases lib.len(),
{
    if lib.len() == 0 {
        lib
    } else if playlist_matches(p, lib.last()) {
        passing(p, lib.drop_last()).push(lib.last())
    } else {
        passing(p, lib.drop_last())
    }
}

/// The field a playlist sorts by.
#[derive(Debug, Clone, Copy, PartialEq, Eq, Structural)]
pub enum SortKey {
    Title,
    Artist,
    Album,
    Duration,
}

/// The sort field a playlist's `sort_by` names.
pub open spec fn sort_key_of(s: Seq<char>) -> SortKey {
    if s == "artist"@ {
        SortKey::Artist
    } else if s == "album"@ {
        SortKey::Album
    } else if s == "duration"@ {
        SortKey::Duration
    } else {
        SortKey::Title
    }
}

/// Lexicographic order of character sequences (the order of `String`'s
/// `cmp`, which compares UTF-8 bytes and so code points).
pub open spec fn seq_lt(a: Seq<char>, b: Seq<char>) -> bool
    decreases a.len(),
{
    if b.len() == 0 {
        false
    } else if a.len() == 0 {
        true
    } else if a[0] != b[0] {
        (a[0] as int) < (b[0] as int)
    } else {
        seq_lt(a.drop_first(), b.drop_first())
    }
}

/// `a`'s key is below `b`'s.
pub open spec fn key_lt(key: SortKey, a: RecordView, b: RecordView) -> bool {
    match key {
        SortKey::Title => seq_lt(a.title, b.title),
        SortKey::Artist => seq_lt(a.artist, b.artist),
        SortKey::Album => seq_lt(a.album, b.album),
        SortKey::Duration => a.duration_secs < b.duration_secs,
    }
}

/// `a` strictly precedes `b` in the chosen direction.
pub open spec fn before(key: SortKey, asc: bool, a: RecordView, b: RecordView) -> bool {
    if asc {
        key_lt(key, a, b)
    } else {
        key_lt(key, b, a)
    }
}

/// `x` inserted into `s` after every element it does not precede.
pub open spec fn insert_sorted(s: Seq<RecordView>, x: RecordView, key: SortKey, asc: bool) -> Seq<RecordView>
    decreases s.len(),
{
    if s.len() == 0 {
        seq![x]
    } else if before(key, asc, x, s.last()) {
        insert_sorted(s.drop_last(), x, key, asc).push(s.last())
    } else {
        s.push(x)
    }
}

/// The stable sort of `s`: each record in turn inserted after the records
/// before it that it does not precede.
pub open spec fn stable_sorted(s: Seq<RecordView>, key: SortKey, asc: bool) -> Seq<RecordView>
    decreases s.len(),
{
    if s.len() == 0 {
        s
    } else {
        insert_sorted(stable_sorted(s.drop_last(), key, asc), s.last(), key, asc)
    }
}

/// The songs of a playlist over a library: the passing records, stably
/// sorted, cut to `max_songs` when that is not zero.
pub open spec fn resolved(p: PlaylistView, lib: Seq<RecordView>) -> Seq<RecordView> {
    let sorted = stable_sorted(passing(p, lib), sort_key_of(p.sort_by), p.sort_ascending);
    if p.max_songs > 0 && sorted.len() > p.max_songs {
        sorted.take(p.max_songs as int)
    } else {
        sorted
    }
}

/// Inserting keeps every record and adds `x`.
pub proof fn lemma_insert_sorted_multiset(s: Seq<RecordView>, x: RecordView, key: SortKey, asc: bool)
    ensures
        insert_sorted(s, x, key, asc).to_multiset() == s.to_multiset().insert(x),
    decreases s.len(),
{
    broadcast use vstd::seq_lib::group_seq_properties;
    if s.len() > 0 {
        assert(s == s.drop_last().push(s.last()));
        if before(key, asc, x, s.last()) {
            lemma_insert_sorted_multiset(s.drop_last(), x, key, asc);
            assert(s.drop_last().to_multiset().insert(x).insert(s.last()) =~= s.drop_last().to_multiset().insert(
                s.last(),
            ).insert(x));
        }
    }
}

/// Sorting keeps exactly the records it sorts.
pub proof fn lemma_stable_sorted_multiset(s: Seq<RecordView>, key: SortKey, asc: bool)
    ensures
        stable_sorted(s, key, asc).to_multiset() == s.to_multiset(),
    decreases s.len(),
{
    broadcast use vstd::seq_lib::group_seq_properties;
    if s.len() > 0 {
        lemma_stable_sorted_multiset(s.drop_last(), key, asc);
        lemma_insert_sorted_multiset(stable_sorted(s.drop_last(), key, asc), s.last(), key, asc);
        assert(s == s.drop_last().push(s.last()));
    }
}

/// The passing records pass the rules and come from the library.
pub proof fn lemma_passing(p: PlaylistView, lib: Seq<RecordView>)
    ensures
        forall|r: RecordView| #[trigger] passing(p, lib).contains(r) ==> playlist_matches(p, r) && lib.contains(r),
    decreases lib.len(),
{
    if lib.len() > 0 {
        lemma_passing(p, lib.drop_last());
        assert forall|r: RecordView| #[trigger] passing(p, lib).contains(r) implies playlist_matches(p, r)
            && lib.contains(r) by {
            let q = passing(p, lib.drop_last());
            if q.contains(r) {
                let k = choose|k: int| 0 <= k < q.len() && q[k] == r;
                assert(lib.drop_last().contains(r));
                let m = choose|m: int| 0 <= m < lib.drop_last().len() && lib.drop_last()[m] == r;
                assert(lib[m] == r);
            } else {
                let k = choose|k: int| 0 <= k < passing(p, lib).len() && passing(p, lib)[k] == r;
                assert(k == q.len());
                assert(lib[lib.len() - 1] == r);
            }
        }
    }
}

/// A playlist's songs all pass its rules and come from the library; there
/// are at most `max_songs` of them when that is set, and without a limit
/// they are exactly the passing songs, reordered.
pub proof fn lemma_resolved_sound(p: PlaylistView, lib: Seq<RecordView>)
    ensures
        forall|r: RecordView| #[trigger] resolved(p, lib).contains(r) ==> playlist_matches(p, r) && lib.contains(r),
        p.max_songs > 0 ==> resolved(p, lib).len() <= p.max_songs,
        p.max_songs == 0 ==> resolved(p, lib).to_multiset() == passing(p, lib).to_multiset(),
{
    broadcast use vstd::seq_lib::group_seq_properties;
    let key = sort_key_of(p.sort_by);
    let sorted = stable_sorted(passing(p, lib), key, p.sort_ascending);
    lemma_stable_sorted_multiset(passing(p, lib), key, p.sort_ascending);
    lemma_passing(p, lib);
    assert forall|r: RecordView| #[trigger] resolved(p, lib).contains(r) implies playlist_matches(p, r) && lib.contains(
        r,
    ) by {
        let k = choose|k: int| 0 <= k < resolved(p, lib).len() && resolved(p, lib)[k] == r;
        assert(sorted[k] == r);
        assert(sorted.contains(r));
        assert(sorted.to_multiset().count(r) > 0);
        assert(passing(p, lib).to_multiset().count(r) > 0);
        assert(passing(p, lib).contains(r));
    }
}

/// The lexicographic order is irreflexive and transitive.
pub proof fn lemma_seq_lt_order(a: Seq<char>, b: Seq<char>, c: Seq<char>)
    ensures
        !seq_lt(a, a),
        seq_lt(a, b) && seq_lt(b, c) ==> seq_lt(a, c),
    decreases a.len(),
{
    if a.len() > 0 {
        lemma_seq_lt_order(a.drop_first(), b.drop_first(), c.drop_first());
        if seq_lt(a, b) && seq_lt(b, c) && b.len() > 0 && c.len() > 0 && a[0] == b[0] && b[0] == c[0] {
            assert(seq_lt(a.drop_first(), b.drop_first()));
        }
    }
}

/// Any two sequences are equal or ordered one way or the other.
pub proof fn lemma_seq_lt_total(a: Seq<char>, b: Seq<char>)
    ensures
        seq_lt(a, b) || seq_lt(b, a) || a == b,
    decreases a.len(),
{
    if a.len() > 0 && b.len() > 0 && a[0] == b[0] {
        lemma_seq_lt_total(a.drop_first(), b.drop_first());
        if a.drop_first() == b.drop_first() {
            assert(a =~= seq![a[0]] + a.drop_first());
            assert(b =~= seq![b[0]] + b.drop_first());
        }
    } else if a.len() > 0 && b.len() > 0 {
        assert((a[0] as int) != (b[0] as int));
    } else if a.len() == 0 && b.len() == 0 {
        assert(a =~= b);
    }
}

/// "Precedes" is asymmetric, and not preceding is transitive: the sort
/// order is a strict weak order.
pub proof fn lemma_before_order(key: SortKey, asc: bool, x: RecordView, y: RecordView, z: RecordView)
    ensures
        before(key, asc, x, y) ==> !before(key, asc, y, x),
        !before(key, asc, x, y) && !before(key, asc, y, z) ==> !before(key, asc, x, z),
{
    match key {
        SortKey::Title => {
            lemma_seq_lt_order(x.title, y.title, x.title);
            lemma_seq_lt_order(y.title, x.title, y.title);
            lemma_seq_lt_total(x.title, y.title);
            lemma_seq_lt_total(y.title, z.title);
            lemma_seq_lt_order(x.title, y.title, z.title);
            lemma_seq_lt_order(z.title, y.title, x.title);
            lemma_seq_lt_order(y.title, x.title, z.title);
            lemma_seq_lt_order(z.title, x.title, y.title);
            lemma_seq_lt_order(x.title, z.title, y.title);
            lemma_seq_lt_order(y.title, z.title, x.title);
        },
        SortKey::Artist => {
            lemma_seq_lt_order(x.artist, y.artist, x.artist);
            lemma_seq_lt_order(y.artist, x.artist, y.artist);
            lemma_seq_lt_total(x.artist, y.artist);
            lemma_seq_lt_total(y.artist, z.artist);
            lemma_seq_lt_order(x.artist, y.artist, z.artist);
            lemma_seq_lt_order(z.artist, y.artist, x.artist);
            lemma_seq_lt_order(y.artist, x.artist, z.artist);
            lemma_seq_lt_order(z.artist, x.artist, y.artist);
            lemma_seq_lt_order(x.artist, z.artist, y.artist);
            lemma_seq_lt_order(y.artist, z.artist, x.artist);
        },
        SortKey::Album => {
            lemma_seq_lt_order(x.album, y.album, x.album);
            lemma_seq_lt_order(y.album, x.album, y.album);
            lemma_seq_lt_total(x.album, y.album);
            lemma_seq_lt_total(y.album, z.album);
            lemma_seq_lt_order(x.album, y.album, z.album);
            lemma_seq_lt_order(z.album, y.album, x.album);
            lemma_seq_lt_order(y.album, x.album, z.album);
            lemma_seq_lt_order(z.album, x.album, y.album);
            lemma_seq_lt_order(x.album, z.album, y.album);
            lemma_seq_lt_order(y.album, z.album, x.album);
        },
        SortKey::Duration => {},
    }
}

/// No record precedes a record placed before it.
pub open spec fn is_sorted_by(s: Seq<RecordView>, key: SortKey, asc: bool) -> bool {
    forall|i: int, j: int| 0 <= i < j < s.len() ==> !before(key, asc, #[trigger] s[j], #[trigger] s[i])
}

/// Inserting into a sorted sequence keeps it sorted.
pub proof fn lemma_insert_sorted_sorted(s: Seq<RecordView>, x: RecordView, key: SortKey, asc: bool)
    requires
        is_sorted_by(s, key, asc),
    ensures
        is_sorted_by(insert_sorted(s, x, key, asc), key, asc),
    decreases s.len(),
{
    broadcast use vstd::seq_lib::group_seq_properties;
    if s.len() > 0 {
        let last = s.last();
        if before(key, asc, x, last) {
            let u = insert_sorted(s.drop_last(), x, key, asc);
            lemma_insert_sorted_sorted(s.drop_last(), x, key, asc);
            lemma_insert_sorted_multiset(s.drop_last(), x, key, asc);
            let r = u.push(last);
            assert forall|i: int, j: int| 0 <= i < j < r.len() implies !before(key, asc, #[trigger] r[j], #[trigger] r[i]) by {
                if j == r.len() - 1 {
                    assert(r[j] == last);
                    assert(r[i] == u[i]);
                    assert(u.to_multiset().count(u[i]) > 0);
                    if u[i] == x {
                        lemma_before_order(key, asc, x, last, x);
                    } else {
                        assert(s.drop_last().to_multiset().count(u[i]) > 0);
                        let m = choose|m: int| 0 <= m < s.drop_last().len() && s.drop_last()[m] == u[i];
                        assert(s[m] == u[i]);
                        assert(!before(key, asc, s[s.len() - 1], s[m]));
                    }
                } else {
                    assert(r[i] == u[i] && r[j] == u[j]);
                }
            }
        } else {
            let r = s.push(x);
            assert forall|i: int, j: int| 0 <= i < j < r.len() implies !before(key, asc, #[trigger] r[j], #[trigger] r[i]) by {
                if j == r.len() - 1 {
                    assert(r[j] == x);
                    assert(r[i] == s[i]);
                    if i < s.len() - 1 {
                        assert(!before(key, asc, s[s.len() - 1], s[i]));
                        lemma_before_order(key, asc, x, last, s[i]);
                    }
                } else {
                    assert(r[i] == s[i] && r[j] == s[j]);
                }
            }
        }
    }
}

/// The stable sort is sorted.
pub proof fn lemma_stable_sorted_sorted(s: Seq<RecordView>, key: SortKey, asc: bool)
    ensures
        is_sorted_by(stable_sorted(s, key, asc), key, asc),
    decreases s.len(),
{
    if s.len() > 0 {
        lemma_stable_sorted_sorted(s.drop_last(), key, asc);
        lemma_insert_sorted_sorted(stable_sorted(s.drop_last(), key, asc), s.last(), key, asc);
    }
}

/// A playlist's songs come in its sort order: no song precedes, by the
/// playlist's field and direction, a song listed before it.
pub proof fn lemma_resolved_sorted(p: PlaylistView, lib: Seq<RecordView>)
    ensures
        is_sorted_by(resolved(p, lib), sort_key_of(p.sort_by), p.sort_ascending),
{
    let key = sort_key_of(p.sort_by);
    let sorted = stable_sorted(passing(p, lib), key, p.sort_ascending);
    lemma_stable_sorted_sorted(passing(p, lib), key, p.sort_ascending);
    if p.max_songs > 0 && sorted.len() > p.max_songs {
        let r = sorted.take(p.max_songs as int);
        assert forall|i: int, j: int| 0 <= i < j < r.len() implies !before(key, p.sort_ascending, #[trigger] r[j], #[trigger] r[i]) by {
            assert(r[i] == sorted[i] && r[j] == sorted[j]);
        }
    }
}

/// A lowercase hexadecimal digit.
pub open spec fn is_lower_hex(c: char) -> bool {
    ('0' <= c && c <= '9') || ('a' <= c && c <= 'f')
}

/// The text of a random (version 4) UUID in hyphenated lowercase form:
/// 36 characters, hyphens at 8, 13, 18 and 23, lowercase hex digits
/// elsewhere, the version digit `4` at 14, and the variant digit (`8`, `9`,
/// `a` or `b`) at 19.
pub open spec fn uuid_v4_text(s: Seq<char>) -> bool {
    &&& s.len() == 36
    &&& forall|i: int| 0 <= i < 36 ==> if i == 8 || i == 13 || i == 18 || i == 23 {
        s[i] == '-'
    } else {
        is_lower_hex(#[trigger] s[i])
    }
    &&& s[14] == '4'
    &&& (s[19] == '8' || s[19] == '9' || s[19] == 'a' || s[19] == 'b')
}

/// Calls `uuid::Uuid::new_v4` and formats the id with `Display`, which
/// writes the hyphenated lowercase form. The id is random; only its shape is
/// stated: `new_v4` sets the version and variant bits, and the formatter
/// writes lowercase hex digits with hyphens between the groups.
#[verifier::external_body]
fn new_playlist_id() -> (r: String)
    ensures
        uuid_v4_text(r@),
{
    uuid::Uuid::new_v4().to_string()
}

/// ASCII lowercase of one character.
fn ascii_lower_char(c: char) -> (r: char)
    ensures
        r == ascii_lower(c),
{
    if 'A' <= c && c <= 'Z' {
        let b: u8 = c as u8;
        assert(b == c as int);
        (b + 32) as char
    } else {
        c
    }
}

/// `str::eq_ignore_ascii_case`.
pub fn eq_ignore_case(a: &str, b: &str) -> (r: bool)
    ensures
        r == eq_ignore_ascii_case(a@, b@),
{
    let x = chars_of(a);
    let y = chars_of(b);
    if x.len() != y.len() {
        return false;
    }
    let mut i: usize = 0;
    while i < x.len()
        invariant
            x@ == a@,
            y@ == b@,
            x@.len() == y@.len(),
            i <= x@.len(),
            forall|k: int| 0 <= k < i ==> ascii_lower(x@[k]) == ascii_lower(y@[k]),
        decreases x.len() - i,
    {
        if ascii_lower_char(x[i]) != ascii_lower_char(y[i]) {
            return false;
        }
        i = i + 1;
    }
    true
}

/// Case-insensitive substring test.
fn contains_ignore_case(hay: &str, needle: &str) -> (r: bool)
    ensures
        r == contains_seq(lowercase(hay@), lowercase(needle@)),
{
    let h = to_lowercase(hay);
    let n = to_lowercase(needle);
    str_contains(h.as_str(), n.as_str())
}

impl FilterRule {
    /// Whether the record passes this rule (see `rule_matches`).
    pub fn matches(&self, record: &SongRecord) -> (r: bool)
        ensures
            r == rule_matches(self@, record@),
            self@.field == FilterField::Title ==> (self@.op matches OpView::Contains(s) ==> r == contains_seq(
                lowercase(record@.title),
                lowercase(s),
            )),
            self@.field == FilterField::Artist ==> (self@.op matches OpView::Contains(s) ==> r == contains_seq(
                lowercase(record@.artist),
                lowercase(s),
            )),
            self@.field == FilterField::Album ==> (self@.op matches OpView::Contains(s) ==> r == contains_seq(
                lowercase(record@.album),
                lowercase(s),
            )),
            self@.field == FilterField::Title ==> (self@.op matches OpView::Equals(s) ==> r == eq_ignore_ascii_case(
                record@.title,
                s,
            )),
            self@.field == FilterField::Artist ==> (self@.op matches OpView::Equals(s) ==> r == eq_ignore_ascii_case(
                record@.artist,
                s,
            )),
            self@.field == FilterField::Album ==> (self@.op matches OpView::Equals(s) ==> r == eq_ignore_ascii_case(
                record@.album,
                s,
            )),
            self@.field == FilterField::DurationSecs ==> (self@.op matches OpView::GreaterThan(v) ==> r == (
            record@.duration_secs * 1000 > v)),
            self@.field == FilterField::DurationSecs ==> (self@.op matches OpView::LessThan(v) ==> r == (
            record@.duration_secs * 1000 < v)),
    {
        match (&self.field, &self.op) {
            (FilterField::Title, FilterOp::Contains(s)) => contains_ignore_case(record.title.as_str(), s.as_str()),
            (FilterField::Artist, FilterOp::Contains(s)) => contains_ignore_case(record.artist.as_str(), s.as_str()),
            (FilterField::Album, FilterOp::Contains(s)) => contains_ignore_case(record.album.as_str(), s.as_str()),
            (FilterField::Title, FilterOp::Equals(s)) => eq_ignore_case(record.title.as_str(), s.as_str()),
            (FilterField::Artist, FilterOp::Equals(s)) => eq_ignore_case(record.artist.as_str(), s.as_str()),
            (FilterField::Album, FilterOp::Equals(s)) => eq_ignore_case(record.album.as_str(), s.as_str()),
            (FilterField::DurationSecs, FilterOp::GreaterThan(v)) => (record.duration_secs as i64) * 1000 > *v,
            (FilterField::DurationSecs, FilterOp::LessThan(v)) => (record.duration_secs as i64) * 1000 < *v,
            _ => true,
        }
    }
}

/// Whether `a` sorts strictly below `b`, character by character.
fn chars_lt(a: &Vec<char>, b: &Vec<char>) -> (r: bool)
    ensures
        r == seq_lt(a@, b@),
{
    let mut i: usize = 0;
    assert(a@.skip(0) =~= a@);
    assert(b@.skip(0) =~= b@);
    while i < a.len() && i < b.len()
        invariant
            i <= a@.len(),
            i <= b@.len(),
            seq_lt(a@, b@) == seq_lt(a@.skip(i as int), b@.skip(i as int)),
        decreases a.len() - i,
    {
        if a[i] != b[i] {
            return a[i] < b[i];
        }
        assert(a@.skip(i as int).drop_first() =~= a@.skip(i + 1));
        assert(b@.skip(i as int).drop_first() =~= b@.skip(i + 1));
        i = i + 1;
    }
    i < b.len()
}

/// Whether `a`'s text sorts strictly below `b`'s.
fn str_lt(a: &str, b: &str) -> (r: bool)
    ensures
        r == seq_lt(a@, b@),
{
    chars_lt(&chars_of(a), &chars_of(b))
}

/// Whether `a` strictly precedes `b` in the chosen order.
fn record_before(key: SortKey, asc: bool, a: &SongRecord, b: &SongRecord) -> (r: bool)
    ensures
        r == before(key, asc, a@, b@),
{
    let (x, y) = if asc { (a, b) } else { (b, a) };
    match key {
        SortKey::Title => str_lt(x.title.as_str(), y.title.as_str()),
        SortKey::Artist => str_lt(x.artist.as_str(), y.artist.as_str()),
        SortKey::Album => str_lt(x.album.as_str(), y.album.as_str()),
        SortKey::Duration => x.duration_secs < y.duration_secs,
    }
}

/// Inserting `x` at `j`, where `x` precedes everything from `j` on and not
/// the element before `j`, is `insert_sorted`.
proof fn lemma_insert_at(s: Seq<RecordView>, x: RecordView, key: SortKey, asc: bool, j: int)
    requires
        0 <= j <= s.len(),
        forall|k: int| j <= k < s.len() ==> before(key, asc, x, #[trigger] s[k]),
        j == 0 || !before(key, asc, x, s[j - 1]),
    ensures
        insert_sorted(s, x, key, asc) == s.insert(j, x),
    decreases s.len(),
{
    if s.len() == j {
        if j == 0 {
            assert(s.insert(j, x) =~= seq![x]);
        } else {
            assert(s.insert(j, x) =~= s.push(x));
        }
    } else {
        assert(before(key, asc, x, s[s.len() - 1]));
        lemma_insert_at(s.drop_last(), x, key, asc, j);
        assert(s.drop_last().insert(j, x).push(s.last()) =~= s.insert(j, x));
    }
}

/// Inserts `x` into the sorted `out` after every record it does not
/// precede.
fn insert_record(out: &mut Vec<SongRecord>, x: SongRecord, key: SortKey, asc: bool)
    ensures
        records_view(final(out)@) == insert_sorted(records_view(old(out)@), x@, key, asc),
{
    let ghost s = records_view(out@);
    let mut j = out.len();
    while j > 0 && record_before(key, asc, &x, &out[j - 1])
        invariant
            j <= out@.len(),
            s == records_view(out@),
            forall|k: int| j <= k < s.len() ==> before(key, asc, x@, #[trigger] s[k]),
        decreases j,
    {
        j = j - 1;
    }
    proof {
        lemma_insert_at(s, x@, key, asc, j as int);
    }
    let ghost xv = x@;
    out.insert(j, x);
    assert(records_view(out@) =~= s.insert(j as int, xv));
}

/// The sort field a `sort_by` text names.
fn sort_key_from(s: &str) -> (r: SortKey)
    ensures
        r == sort_key_of(s@),
{
    if str_eq(s, "artist") {
        SortKey::Artist
    } else if str_eq(s, "album") {
        SortKey::Album
    } else if str_eq(s, "duration") {
        SortKey::Duration
    } else {
        SortKey::Title
    }
}

/// Appends the characters of `s`.
fn push_str(out: &mut Vec<char>, s: &str)
    ensures
        final(out)@ == old(out)@ + s@,
{
    let mut v = chars_of(s);
    let ghost sv = v@;
    out.append(&mut v);
}

/// The decimal text of a signed number.
pub open spec fn int_text(i: int) -> Seq<char> {
    if i < 0 {
        seq!['-'] + decimal((-i) as nat)
    } else {
        decimal(i as nat)
    }
}

/// One entry of an M3U playlist: the info line (duration in seconds as a
/// 32-bit signed number, artist, title) and the file path.
pub open spec fn m3u_entry(r: RecordView) -> Seq<char> {
    "\n#EXTINF:"@ + int_text((r.duration_secs as i32) as int) + ","@ + r.artist + " - "@ + r.title + "\n"@
        + r.file_path
}

/// The entries of the songs, in order.
pub open spec fn m3u_entries(s: Seq<RecordView>) -> Seq<char>
    decreases s.len(),
{
    if s.len() == 0 {
        Seq::empty()
    } else {
        m3u_entries(s.drop_last()) + m3u_entry(s.last())
    }
}

/// Appends the decimal text of a signed 32-bit number.
fn push_int(out: &mut Vec<char>, n: i32)
    ensures
        final(out)@ == old(out)@ + int_text(n as int),
{
    if n < 0 {
        out.push('-');
        let m: u64 = (-(n as i64)) as u64;
        push_decimal(out, m);
        assert(final(out)@ =~= old(out)@ + int_text(n as int));
    } else {
        push_decimal(out, n as u64);
    }
}

impl SmartPlaylist {
    /// A new playlist with a fresh random id, no rules, no limit, sorted by
    /// title ascending.
    pub fn new(name: &str) -> (r: Self)
        ensures
            uuid_v4_text(r@.id),
            r@.name == name@,
            r@.rules.len() == 0,
            r.max_songs == 0,
            r@.sort_by == "title"@,
            r.sort_ascending,
    {
        let rules: Vec<FilterRule> = Vec::new();
        assert(rules_view(rules@) =~= Seq::<RuleView>::empty());
        SmartPlaylist {
            id: new_playlist_id(),
            name: name.to_string(),
            rules,
            max_songs: 0,
            sort_by: "title".to_string(),
            sort_ascending: true,
        }
    }

    /// Whether the record passes every rule (a playlist without rules
    /// takes every song).
    pub fn matches(&self, record: &SongRecord) -> (r: bool)
        ensures
            r == playlist_matches(self@, record@),
    {
        let mut i: usize = 0;
        while i < self.rules.len()
            invariant
                i <= self.rules@.len(),
                forall|k: int| 0 <= k < i ==> rule_matches(#[trigger] self@.rules[k], record@),
            decreases self.rules.len() - i,
        {
            if !self.rules[i].matches(record) {
                assert(self@.rules[i as int] == self.rules@[i as int]@);
                return false;
            }
            assert(self@.rules[i as int] == self.rules@[i as int]@);
            i = i + 1;
        }
        true
    }

    /// The playlist's songs in a library (see `resolved`).
    pub fn resolve(&self, library: &[SongRecord]) -> (r: Vec<SongRecord>)
        ensures
            records_view(r@) == resolved(self@, records_view(library@)),
    {
        let key = sort_key_from(self.sort_by.as_str());
        let ghost lib = records_view(library@);
        let mut out: Vec<SongRecord> = Vec::new();
        let ghost mut kept: Seq<RecordView> = Seq::empty();
        let mut i: usize = 0;
        assert(lib.take(0) =~= Seq::<RecordView>::empty());
        assert(records_view(out@) =~= Seq::<RecordView>::empty());
        while i < library.len()
            invariant
                i <= library@.len(),
                lib == records_view(library@),
                kept == passing(self@, lib.take(i as int)),
                records_view(out@) == stable_sorted(kept, key, self.sort_ascending),
                key == sort_key_of(self@.sort_by),
            decreases library.len() - i,
        {
            assert(lib.take(i + 1).drop_last() =~= lib.take(i as int));
            assert(lib.take(i + 1).last() == library@[i as int]@);
            if self.matches(&library[i]) {
                let x = library[i].duplicate();
                proof {
                    assert(kept.push(x@).drop_last() =~= kept);
                    kept = kept.push(x@);
                }
                insert_record(&mut out, x, key, self.sort_ascending);
            }
            i = i + 1;
        }
        assert(lib.take(library.len() as int) =~= lib);
        if self.max_songs > 0 && out.len() > self.max_songs {
            let ghost full = out@;
            out.truncate(self.max_songs);
            assert(records_view(out@) =~= records_view(full).take(self.max_songs as int));
        }
        out
    }

    /// The songs as an M3U playlist: `#EXTM3U`, then for each song an
    /// `#EXTINF:<seconds>,<artist> - <title>` line and its path, lines
    /// joined by newlines.
    pub fn to_m3u(&self, songs: &[SongRecord]) -> (r: String)
        ensures
            r@ == "#EXTM3U"@ + m3u_entries(records_view(songs@)),
    {
        let mut out: Vec<char> = Vec::new();
        push_str(&mut out, "#EXTM3U");
        let ghost head = out@;
        let ghost s = records_view(songs@);
        let mut i: usize = 0;
        assert(s.take(0) =~= Seq::<RecordView>::empty());
        assert(out@ =~= head + m3u_entries(s.take(0)));
        while i < songs.len()
            invariant
                i <= songs@.len(),
                s == records_view(songs@),
                head == "#EXTM3U"@,
                out@ == head + m3u_entries(s.take(i as int)),
            decreases songs.len() - i,
        {
            let song = &songs[i];
            let ghost before_out = out@;
            push_str(&mut out, "\n#EXTINF:");
            push_int(&mut out, song.duration_secs as i32);
            push_str(&mut out, ",");
            push_str(&mut out, song.artist.as_str());
            push_str(&mut out, " - ");
            push_str(&mut out, song.title.as_str());
            push_str(&mut out, "\n");
            push_str(&mut out, song.file_path.as_str());
            assert(s.take(i + 1).drop_last() =~= s.take(i as int));
            assert(s.take(i + 1).last() == song@);
            assert(out@ =~= before_out + m3u_entry(song@));
            i = i + 1;
        }
        assert(s.take(songs.len() as int) =~= s);
        string_from_chars(&out)
    }
}

/// A playlist of the songs shorter than three minutes, shortest first.
pub open spec fn short_songs(p: PlaylistView) -> bool {
    &&& p.name == "Short Songs"@
    &&& uuid_v4_text(p.id)
    &&& p.rules.len() == 1
    &&& p.rules[0].field == FilterField::DurationSecs
    &&& p.rules[0].op == OpView::LessThan(180_000)
    &&& p.max_songs == 0
    &&& p.sort_by == "duration"@
    &&& p.sort_ascending
}

/// A playlist of the songs longer than five minutes, longest first.
pub open spec fn long_jams(p: PlaylistView) -> bool {
    &&& p.name == "Long Jams"@
    &&& uuid_v4_text(p.id)
    &&& p.rules.len() == 1
    &&& p.rules[0].field == FilterField::DurationSecs
    &&& p.rules[0].op == OpView::GreaterThan(300_000)
    &&& p.max_songs == 0
    &&& p.sort_by == "duration"@
    &&& !p.sort_ascending
}

/// Built-in smart playlist presets: short songs and long jams.
pub fn builtin_playlists() -> (r: Vec<SmartPlaylist>)
    ensures
        r@.len() == 2,
        short_songs(r@[0]@),
        long_jams(r@[1]@),
{
    let mut short = SmartPlaylist::new("Short Songs");
    short.rules.push(FilterRule { field: FilterField::DurationSecs, op: FilterOp::LessThan(180_000) });
    short.sort_by = "duration".to_string();
    short.sort_ascending = true;
    let mut long = SmartPlaylist::new("Long Jams");
    long.rules.push(FilterRule { field: FilterField::DurationSecs, op: FilterOp::GreaterThan(300_000) });
    long.sort_by = "duration".to_string();
    long.sort_ascending = false;
    proof {
        assert(short@.rules[0] == short.rules@[0]@);
        assert(long@.rules[0] == long.rules@[0]@);
    }
    vec![short, long]
}

} // verus!
