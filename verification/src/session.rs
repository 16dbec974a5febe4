//! The listening session's memory of recent songs, and the song counter
//! kept in the database.
use vstd::prelude::*;

verus! {

/// Songs remembered by the session (to keep them out of recommendations).
pub const MAX_SESSION_HISTORY: usize = 10;

/// The history after `id` was played: `id` appended, the oldest entry
/// dropped when more than ten are kept.
pub open spec fn remembered(h: Seq<Seq<char>>, id: Seq<char>) -> Seq<Seq<char>> {
    let p = h.push(id);
    if p.len() > 10 {
        p.drop_first()
    } else {
        p
    }
}

/// The session never remembers more than ten songs, and the song just
/// played is the last it remembers.
pub proof fn lemma_remembered_bounded(h: Seq<Seq<char>>, id: Seq<char>)
    requires
        h.len() <= 10,
    ensures
        remembered(h, id).len() <= 10,
        remembered(h, id).last() == id,
        h.len() < 10 ==> remembered(h, id) == h.push(id),
{
}

/// The views of a list of ids.
pub open spec fn ids_view(s: Seq<String>) -> Seq<Seq<char>> {
    s.map_values(|x: String| x@)
}

/// Records that `id` was played in the session.
pub fn remember_song(history: &mut Vec<String>, id: &str)
    ensures
        ids_view(final(history)@) == remembered(ids_view(old(history)@), id@),
{
    let ghost h0 = ids_view(history@);
    history.push(id.to_string());
    assert(ids_view(history@) =~= h0.push(id@));
    if history.len() > MAX_SESSION_HISTORY {
        let ghost h1 = history@;
        history.remove(0);
        assert(ids_view(history@) =~= ids_view(h1).drop_first());
    }
}

/// `256` to the power `n`.
pub open spec fn pow256(n: nat) -> nat
    decreases n,
{
    if n == 0 {
        1
    } else {
        256 * pow256((n - 1) as nat)
    }
}

/// The number little-endian bytes denote.
pub open spec fn le_value(b: Seq<u8>) -> nat
    decreases b.len(),
{
    if b.len() == 0 {
        0
    } else {
        b[0] as nat + 256 * le_value(b.drop_first())
    }
}

/// The song count stored in the database: eight little-endian bytes;
/// anything else, or nothing, counts as zero.
pub open spec fn stored_count(b: Option<Seq<u8>>) -> nat {
    match b {
        Some(s) => if s.len() == 8 { le_value(s) } else { 0 },
        None => 0,
    }
}

proof fn lemma_pow256_8()
    ensures
        pow256(8) == 0x1_0000_0000_0000_0000,
{
    reveal_with_fuel(pow256, 9);
}

proof fn lemma_pow256_mono(a: nat, b: nat)
    requires
        a <= b,
    ensures
        pow256(a) <= pow256(b),
    decreases b,
{
    if a < b {
        lemma_pow256_mono(a, (b - 1) as nat);
    }
}

proof fn lemma_le_value_bound(b: Seq<u8>)
    ensures
        le_value(b) < pow256(b.len()),
    decreases b.len(),
{
    if b.len() > 0 {
        lemma_le_value_bound(b.drop_first());
        let r = le_value(b.drop_first());
        let p = pow256((b.len() - 1) as nat);
        assert(b[0] as nat + 256 * r < 256 * p) by (nonlinear_arith)
            requires
                b[0] < 256,
                r < p,
        ;
    }
}

/// Reads the song count from its stored bytes.
pub fn count_from_bytes(bytes: &Option<Vec<u8>>) -> (r: u64)
    ensures
        r as nat == stored_count(match bytes {
            Some(v) => Some(v@),
            None => None,
        }),
{
    match bytes {
        Some(v) => {
            if v.len() != 8 {
                return 0;
            }
            let mut acc: u64 = 0;
            let mut i: usize = 8;
            proof {
                lemma_pow256_8();
            }
            assert(v@.skip(8) =~= Seq::<u8>::empty());
            while i > 0
                invariant
                    i <= 8,
                    v@.len() == 8,
                    acc as nat == le_value(v@.skip(i as int)),
                    pow256(8) == 0x1_0000_0000_0000_0000,
                decreases i,
            {
                let ghost rest = v@.skip(i as int);
                assert(v@.skip(i - 1).drop_first() =~= rest);
                assert(v@.skip(i - 1)[0] == v@[i - 1]);
                proof {
                    lemma_le_value_bound(v@.skip(i - 1));
                    lemma_pow256_mono((9 - i) as nat, 8);
                }
                assert(v@[i - 1] as int + 256 * acc < 0x1_0000_0000_0000_0000);
                acc = v[i - 1] as u64 + 256 * acc;
                i = i - 1;
            }
            assert(v@.skip(0) =~= v@);
            acc
        },
        None => 0,
    }
}

proof fn lemma_le_value_push(s: Seq<u8>, b: u8)
    ensures
        le_value(s.push(b)) == le_value(s) + pow256(s.len()) * b,
    decreases s.len(),
{
    if s.len() == 0 {
        assert(s.push(b).drop_first() =~= Seq::<u8>::empty());
        assert(le_value(s.push(b).drop_first()) == 0);
        assert(s.push(b)[0] == b);
        assert(le_value(s.push(b)) == b as nat);
        assert(pow256(0) == 1);
    } else {
        assert(s.push(b).drop_first() =~= s.drop_first().push(b));
        lemma_le_value_push(s.drop_first(), b);
        let p = pow256((s.len() - 1) as nat);
        let r = le_value(s.drop_first());
        assert(256 * (r + p * b) == 256 * r + (256 * p) * b) by (nonlinear_arith);
        assert(s.push(b)[0] == s[0]);
        assert(pow256(s.len()) == 256 * p);
        assert(le_value(s.push(b)) == s[0] as nat + 256 * le_value(s.drop_first().push(b)));
        assert(le_value(s) == s[0] as nat + 256 * r);
    }
}

/// The eight little-endian bytes that store a song count.
pub fn count_to_bytes(n: u64) -> (r: Vec<u8>)
    ensures
        r@.len() == 8,
        le_value(r@) == n,
{
    let mut out: Vec<u8> = Vec::new();
    let mut m = n;
    let mut i: usize = 0;
    assert(pow256(0) == 1);
    while i < 8
        invariant
            i <= 8,
            out@.len() == i,
            n == le_value(out@) + pow256(i as nat) * m,
        decreases 8 - i,
    {
        let b = (m % 256) as u8;
        let ghost o = out@;
        out.push(b);
        proof {
            lemma_le_value_push(o, b);
            let p = pow256(i as nat);
            assert(p * m == p * (m % 256) + (256 * p) * (m / 256)) by (nonlinear_arith);
            assert(pow256((i + 1) as nat) == 256 * p);
        }
        m = m / 256;
        i = i + 1;
    }
    proof {
        lemma_pow256_8();
        assert(m == 0) by (nonlinear_arith)
            requires
                n == le_value(out@) + 0x1_0000_0000_0000_0000 * m,
                n < 0x1_0000_0000_0000_0000,
        ;
    }
    out
}

/// A count written as bytes reads back as the same count.
pub proof fn lemma_count_roundtrip(n: u64, b: Seq<u8>)
    requires
        b.len() == 8,
        le_value(b) == n,
    ensures
        stored_count(Some(b)) == n,
{
}

} // verus!
