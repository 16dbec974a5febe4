//! The whole-number decisions of the recommender: when it refuses, which
//! songs may be recommended, and which listens count as skips. The scoring
//! itself is floating point and stays with the caller.
use vstd::prelude::*;
use crate::session::ids_view;
use crate::text::str_eq;

verus! {

/// Why no recommendations can be made.
#[derive(Debug, PartialEq, Eq, Clone, Copy)]
pub enum Refusal {
    /// Fewer than three songs are indexed.
    InsufficientLibrary,
    /// The song to follow is not indexed.
    NotFound,
}

/// The fewest indexed songs the recommender works with.
pub const MIN_LIBRARY_SONGS: u64 = 3;

/// Recommendations are refused, as `InsufficientLibrary`, while fewer than
/// three songs are indexed.
pub fn check_library(total: u64) -> (r: Result<(), Refusal>)
    ensures
        r is Ok <==> total >= 3,
        r matches Err(e) ==> e == Refusal::InsufficientLibrary,
{
    if total < MIN_LIBRARY_SONGS {
        Err(Refusal::InsufficientLibrary)
    } else {
        Ok(())
    }
}

/// The first position of `id` in `ids`, or `NotFound` when it is not there.
pub fn locate_song(ids: &Vec<String>, id: &str) -> (r: Result<usize, Refusal>)
    ensures
        match r {
            Ok(i) => i < ids@.len() && ids@[i as int]@ == id@ && forall|j: int|
                0 <= j < i ==> ids@[j]@ != id@,
            Err(e) => e == Refusal::NotFound && forall|j: int| 0 <= j < ids@.len() ==> ids@[j]@ != id@,
        },
{
    let mut i: usize = 0;
    while i < ids.len()
        invariant
            i <= ids@.len(),
            forall|j: int| 0 <= j < i ==> ids@[j]@ != id@,
        decreases ids.len() - i,
    {
        if str_eq(ids[i].as_str(), id) {
            return Ok(i);
        }
        i = i + 1;
    }
    Err(Refusal::NotFound)
}

/// Whether `x` occurs in `list`.
fn listed(list: &Vec<String>, x: &str) -> (r: bool)
    ensures
        r <==> ids_view(list@).contains(x@),
{
    let mut i: usize = 0;
    while i < list.len()
        invariant
            i <= list@.len(),
            forall|j: int| 0 <= j < i ==> list@[j]@ != x@,
        decreases list.len() - i,
    {
        if str_eq(list[i].as_str(), x) {
            assert(ids_view(list@)[i as int] == x@);
            return true;
        }
        i = i + 1;
    }
    proof {
        if ids_view(list@).contains(x@) {
            let k = choose|k: int| 0 <= k < ids_view(list@).len() && ids_view(list@)[k] == x@;
            assert(list@[k]@ == x@);
        }
    }
    false
}

/// The positions of the entries of `ids` that `drop` does not hold, in
/// increasing order: every such position, and no other.
pub fn positions_not_in(ids: &Vec<String>, drop: &Vec<String>) -> (r: Vec<usize>)
    ensures
        forall|k: int|
            0 <= k < r@.len() ==> #[trigger] r@[k] < ids@.len() && !ids_view(drop@).contains(ids@[r@[k] as int]@),
        forall|k1: int, k2: int| 0 <= k1 < k2 < r@.len() ==> r@[k1] < r@[k2],
        forall|i: int|
            0 <= i < ids@.len() && !ids_view(drop@).contains(#[trigger] ids@[i]@) ==> r@.contains(i as usize),
{
    let mut out: Vec<usize> = Vec::new();
    let mut i: usize = 0;
    while i < ids.len()
        invariant
            i <= ids@.len(),
            forall|k: int|
                0 <= k < out@.len() ==> #[trigger] out@[k] < i && !ids_view(drop@).contains(ids@[out@[k] as int]@),
            forall|k1: int, k2: int| 0 <= k1 < k2 < out@.len() ==> out@[k1] < out@[k2],
            forall|j: int|
                0 <= j < i && !ids_view(drop@).contains(#[trigger] ids@[j]@) ==> out@.contains(j as usize),
        decreases ids.len() - i,
    {
        if !listed(drop, ids[i].as_str()) {
            let ghost o = out@;
            out.push(i);
            proof {
                assert(out@[o.len() as int] == i);
                assert forall|j: int|
                    0 <= j < i + 1 && !ids_view(drop@).contains(#[trigger] ids@[j]@) implies out@.contains(
                    j as usize,
                ) by {
                    if j < i {
                        let k = choose|k: int| 0 <= k < o.len() && o[k] == j as usize;
                        assert(out@[k] == j as usize);
                    } else {
                        assert(out@[o.len() as int] == j as usize);
                    }
                }
            }
        } else {
            proof {
                assert forall|j: int|
                    0 <= j < i + 1 && !ids_view(drop@).contains(#[trigger] ids@[j]@) implies out@.contains(
                    j as usize,
                ) by {
                    if j == i {
                        assert(ids_view(drop@).contains(ids@[j]@));
                    }
                }
            }
        }
        i = i + 1;
    }
    out
}

/// A listen is a skip when less than 30% of the song was heard; a song of
/// unknown length counts as skipped.
pub open spec fn skipped(listened_secs: int, duration_secs: int) -> bool {
    duration_secs == 0 || 10 * listened_secs < 3 * duration_secs
}

/// Whether a listen of `listened_secs` of a song `duration_secs` long is a
/// skip.
pub fn is_skip(listened_secs: u32, duration_secs: u32) -> (r: bool)
    ensures
        r == skipped(listened_secs as int, duration_secs as int),
{
    duration_secs == 0 || 10 * (listened_secs as u64) < 3 * (duration_secs as u64)
}

} // verus!
