//! Permutations of sequences, and the random shuffle that produces them.
use vstd::prelude::*;
use rand::seq::SliceRandom;
use rand::Rng;

verus! {

/// `b` holds the elements of `a` rearranged: position `i` of `b` holds
/// position `p[i]` of `a`, for a bijection `p` of the indices.
pub open spec fn is_permutation_by<T>(a: Seq<T>, b: Seq<T>, p: Seq<int>) -> bool {
    &&& p.len() == a.len()
    &&& b.len() == a.len()
    &&& forall|i: int| 0 <= i < p.len() ==> 0 <= #[trigger] p[i] < a.len()
    &&& forall|i: int, j: int| 0 <= i < p.len() && 0 <= j < p.len() && i != j ==> p[i] != p[j]
    &&& forall|i: int| 0 <= i < b.len() ==> #[trigger] b[i] == a[p[i]]
}

/// `b` is a rearrangement of `a`.
pub open spec fn is_permutation<T>(a: Seq<T>, b: Seq<T>) -> bool {
    exists|p: Seq<int>| is_permutation_by(a, b, p)
}

/// Every sequence is a rearrangement of itself.
pub proof fn lemma_permutation_refl<T>(a: Seq<T>)
    ensures
        is_permutation(a, a),
{
    let p = Seq::new(a.len(), |i: int| i);
    assert(is_permutation_by(a, a, p));
}

/// A rearrangement of a rearrangement of `a` is a rearrangement of `a`.
pub proof fn lemma_permutation_trans<T>(a: Seq<T>, b: Seq<T>, c: Seq<T>)
    requires
        is_permutation(a, b),
        is_permutation(b, c),
    ensures
        is_permutation(a, c),
{
    let p = choose|p: Seq<int>| is_permutation_by(a, b, p);
    let q = choose|q: Seq<int>| is_permutation_by(b, c, q);
    let r = Seq::new(c.len(), |i: int| p[q[i]]);
    assert forall|i: int| 0 <= i < r.len() implies 0 <= #[trigger] r[i] < a.len() by {
        assert(0 <= q[i] < b.len());
    }
    assert forall|i: int, j: int| 0 <= i < r.len() && 0 <= j < r.len() && i != j implies r[i] != r[j] by {
        assert(q[i] != q[j]);
        assert(0 <= q[i] < p.len() && 0 <= q[j] < p.len());
    }
    assert forall|i: int| 0 <= i < c.len() implies #[trigger] c[i] == a[r[i]] by {
        assert(c[i] == b[q[i]]);
        assert(0 <= q[i] < b.len());
        assert(b[q[i]] == a[p[q[i]]]);
    }
    assert(is_permutation_by(a, c, r));
}

/// Shuffles `v` in place with `rand::seq::SliceRandom::shuffle` and the
/// thread-local generator. The contract claims only that the result is a
/// rearrangement of the input; which one is left to chance.
#[verifier::external_body]
pub(crate) fn shuffle_in_place<T>(v: &mut Vec<T>)
    ensures
        is_permutation(old(v)@, final(v)@),
{
    v.shuffle(&mut rand::thread_rng());
}

/// Picks an index in `0..n` with `rand::Rng::gen_range` and the thread-local
/// generator. The contract claims only that the index is in range.
#[verifier::external_body]
pub(crate) fn random_index(n: usize) -> (r: usize)
    requires
        n > 0,
    ensures
        r < n,
{
    rand::thread_rng().gen_range(0..n)
}

} // verus!
