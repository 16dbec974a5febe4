//! Playback queue: upcoming songs plus a history for previous/next.
use vstd::prelude::*;
use std::collections::VecDeque;
use crate::song::{SongInfo, SongView};
use crate::perm::{is_permutation, is_permutation_by, shuffle_in_place};

verus! {

broadcast use vstd::std_specs::vecdeque::group_vec_dequeue_axioms;

/// The views of a sequence of songs.
pub open spec fn song_views(s: Seq<SongInfo>) -> Seq<SongView> {
    s.map_values(|x: SongInfo| x@)
}

/// What a queue denotes: upcoming songs, played songs, and the cursor into
/// the played ones.
#[verifier::ext_equal]
pub struct QueueView {
    pub upcoming: Seq<SongView>,
    pub played: Seq<SongView>,
    pub cursor: Option<int>,
}

/// The queue after a song is appended.
pub open spec fn pushed_back(q: QueueView, s: SongView) -> QueueView {
    QueueView { upcoming: q.upcoming.push(s), ..q }
}

/// The queue after a song is put in front.
pub open spec fn pushed_front(q: QueueView, s: SongView) -> QueueView {
    QueueView { upcoming: seq![s] + q.upcoming, ..q }
}

/// The song `next` hands out.
pub open spec fn next_song(q: QueueView) -> Option<SongView> {
    if q.upcoming.len() == 0 {
        None
    } else {
        Some(q.upcoming[0])
    }
}

/// The queue after `next`: its first song moves to the history and becomes
/// the current one.
pub open spec fn after_next(q: QueueView) -> QueueView {
    if q.upcoming.len() == 0 {
        q
    } else {
        QueueView {
            upcoming: q.upcoming.drop_first(),
            played: q.played.push(q.upcoming[0]),
            cursor: Some(q.played.len() as int),
        }
    }
}

/// The song `previous` hands out: the one before the current one.
pub open spec fn previous_song(q: QueueView) -> Option<SongView> {
    match q.cursor {
        Some(i) if i > 0 => Some(q.played[i - 1]),
        _ => None,
    }
}

/// The queue after `previous`: the cursor steps back when it can.
pub open spec fn after_previous(q: QueueView) -> QueueView {
    match q.cursor {
        Some(i) if i > 0 => QueueView { cursor: Some(i - 1), ..q },
        _ => q,
    }
}

/// The view of an optional song.
pub open spec fn opt_view(o: Option<SongInfo>) -> Option<SongView> {
    match o {
        Some(s) => Some(s@),
        None => None,
    }
}

/// Songs come out in the order they went in: two songs appended to an
/// empty queue are handed out first and second.
pub proof fn lemma_queue_fifo(q: QueueView, a: SongView, b: SongView)
    requires
        q.upcoming.len() == 0,
    ensures
        next_song(pushed_back(pushed_back(q, a), b)) == Some(a),
        next_song(after_next(pushed_back(pushed_back(q, a), b))) == Some(b),
        after_next(after_next(pushed_back(pushed_back(q, a), b))).upcoming.len() == 0,
{
    assert(pushed_back(pushed_back(q, a), b).upcoming =~= seq![a, b]);
    assert(pushed_back(pushed_back(q, a), b).upcoming.drop_first() =~= seq![b]);
    assert(seq![b].drop_first() =~= Seq::<SongView>::empty());
}

/// A song put in front of the queue is the next one to play.
pub proof fn lemma_push_front_plays_next(q: QueueView, s: SongView)
    ensures
        next_song(pushed_front(q, s)) == Some(s),
        after_next(pushed_front(q, s)).upcoming == q.upcoming,
{
    assert((seq![s] + q.upcoming).drop_first() =~= q.upcoming);
}

/// After two songs were handed out, `previous` gives back the first one;
/// `next` after that hands out the song that was queued third.
pub proof fn lemma_previous_after_next(q: QueueView)
    requires
        q.upcoming.len() >= 2,
        q.cursor is None ==> q.played.len() == 0,
        q.cursor matches Some(i) ==> 0 <= i < q.played.len(),
    ensures
        previous_song(after_next(after_next(q))) == Some(q.upcoming[0]),
{
    let q1 = after_next(q);
    let q2 = after_next(q1);
    assert(q1.upcoming.len() > 0);
    assert(q2.cursor == Some((q.played.len() + 1) as int));
    assert(q2.played[q.played.len() as int] == q.upcoming[0]);
}

/// `previous` on a queue that never handed a song out gives nothing.
pub proof fn lemma_previous_on_fresh_queue(q: QueueView)
    requires
        q.cursor is None,
    ensures
        previous_song(q) is None,
        after_previous(q) == q,
{
}

/// An ordered queue of songs with history tracking for previous/next
/// navigation.
pub struct PlaybackQueue {
    /// Songs waiting to be played.
    songs: VecDeque<SongInfo>,
    /// Songs already played this session (most recent last).
    history: Vec<SongInfo>,
    /// Index of the currently playing song within `history`, if any.
    current_index: Option<usize>,
}

impl View for PlaybackQueue {
    type V = QueueView;

    open spec fn view(&self) -> QueueView {
        QueueView { upcoming: self.upcoming(), played: self.played(), cursor: self.cursor() }
    }
}

impl PlaybackQueue {
    /// The upcoming songs, front first.
    pub closed spec fn upcoming(&self) -> Seq<SongView> {
        song_views(self.songs@)
    }

    /// The songs handed out by `next`, oldest first.
    pub closed spec fn played(&self) -> Seq<SongView> {
        song_views(self.history@)
    }

    /// The position in `played()` of the song last handed out by `next` or
    /// `previous`.
    pub closed spec fn cursor(&self) -> Option<int> {
        match self.current_index {
            Some(i) => Some(i as int),
            None => None,
        }
    }

    /// The queue's invariant: the cursor points into the history, and there
    /// is a cursor exactly when the history is not empty.
    pub closed spec fn wf(&self) -> bool {
        match self.current_index {
            Some(i) => i < self.history@.len(),
            None => self.history@.len() == 0,
        }
    }

    /// In a well-formed queue the cursor points into the history, and there
    /// is one exactly when the history is not empty.
    pub proof fn lemma_cursor_in_history(q: PlaybackQueue)
        requires
            q.wf(),
        ensures
            match q.cursor() {
                Some(i) => 0 <= i < q.played().len(),
                None => q.played().len() == 0,
            },
    {
    }

    /// Creates an empty queue.
    pub fn new() -> (q: Self)
        ensures
            q.wf(),
            q.upcoming() == Seq::<SongView>::empty(),
            q.played() == Seq::<SongView>::empty(),
            q.cursor() is None,
    {
        let q = PlaybackQueue { songs: VecDeque::new(), history: Vec::new(), current_index: None };
        assert(q.upcoming() =~= Seq::<SongView>::empty());
        assert(q.played() =~= Seq::<SongView>::empty());
        q
    }

    /// Appends a song to the back of the queue.
    pub fn push_back(&mut self, song: SongInfo)
        requires
            old(self).wf(),
        ensures
            final(self).wf(),
            final(self).upcoming() == old(self).upcoming().push(song@),
            final(self).played() == old(self).played(),
            final(self).cursor() == old(self).cursor(),
            final(self)@ == pushed_back(old(self)@, song@),
    {
        self.songs.push_back(song);
        assert(self.upcoming() =~= old(self).upcoming().push(song@));
    }

    /// Inserts a song at the front of the queue (play next).
    pub fn push_front(&mut self, song: SongInfo)
        requires
            old(self).wf(),
        ensures
            final(self).wf(),
            final(self).upcoming() == seq![song@] + old(self).upcoming(),
            final(self).played() == old(self).played(),
            final(self).cursor() == old(self).cursor(),
            final(self)@ == pushed_front(old(self)@, song@),
    {
        self.songs.push_front(song);
        assert(self.upcoming() =~= seq![song@] + old(self).upcoming());
    }

    /// Pops the next song from the front of the queue and records it in the
    /// history, where it becomes the current song.
    pub fn next(&mut self) -> (r: Option<SongInfo>)
        requires
            old(self).wf(),
        ensures
            final(self).wf(),
            old(self).upcoming().len() == 0 ==> {
                &&& r is None
                &&& final(self).upcoming() == old(self).upcoming()
                &&& final(self).played() == old(self).played()
                &&& final(self).cursor() == old(self).cursor()
            },
            old(self).upcoming().len() > 0 ==> {
                &&& r matches Some(s) && s@ == old(self).upcoming()[0]
                &&& final(self).upcoming() == old(self).upcoming().drop_first()
                &&& final(self).played() == old(self).played().push(old(self).upcoming()[0])
                &&& final(self).cursor() == Some(old(self).played().len() as int)
            },
            final(self)@ == after_next(old(self)@),
            opt_view(r) == next_song(old(self)@),
    {
        match self.songs.pop_front() {
            None => None,
            Some(song) => {
                let copy = song.duplicate();
                self.history.push(copy);
                let last = self.history.len() - 1;
                self.current_index = Some(last);
                assert(self.upcoming() =~= old(self).upcoming().drop_first());
                assert(self.played() =~= old(self).played().push(old(self).upcoming()[0]));
                Some(song)
            },
        }
    }

    /// Steps back one song in the history and returns it. Returns `None`,
    /// changing nothing, when there is no earlier song.
    pub fn previous(&mut self) -> (r: Option<SongInfo>)
        requires
            old(self).wf(),
        ensures
            final(self).wf(),
            final(self).upcoming() == old(self).upcoming(),
            final(self).played() == old(self).played(),
            match old(self).cursor() {
                Some(i) if i > 0 => {
                    &&& r matches Some(s) && s@ == old(self).played()[i - 1]
                    &&& final(self).cursor() == Some(i - 1)
                },
                _ => r is None && final(self).cursor() == old(self).cursor(),
            },
            final(self)@ == after_previous(old(self)@),
            opt_view(r) == previous_song(old(self)@),
    {
        match self.current_index {
            Some(idx) => {
                if idx > 0 {
                    let new_idx = idx - 1;
                    self.current_index = Some(new_idx);
                    Some(self.history[new_idx].duplicate())
                } else {
                    None
                }
            },
            None => None,
        }
    }

    /// Removes the song at `index` from the upcoming queue.
    pub fn remove_at(&mut self, index: usize) -> (r: Option<SongInfo>)
        requires
            old(self).wf(),
        ensures
            final(self).wf(),
            final(self).played() == old(self).played(),
            final(self).cursor() == old(self).cursor(),
            index < old(self).upcoming().len() ==> {
                &&& r matches Some(s) && s@ == old(self).upcoming()[index as int]
                &&& final(self).upcoming() == old(self).upcoming().remove(index as int)
            },
            index >= old(self).upcoming().len() ==> r is None && final(self).upcoming()
                == old(self).upcoming(),
    {
        let r = self.songs.remove(index);
        assert(index < old(self).upcoming().len() ==> self.upcoming() =~= old(self).upcoming().remove(index as int));
        r
    }

    /// Clears both the queue and the history.
    pub fn clear(&mut self)
        requires
            old(self).wf(),
        ensures
            final(self).wf(),
            final(self).upcoming() == Seq::<SongView>::empty(),
            final(self).played() == Seq::<SongView>::empty(),
            final(self).cursor() is None,
    {
        self.songs.clear();
        self.history.clear();
        self.current_index = None;
        assert(self.upcoming() =~= Seq::<SongView>::empty());
        assert(self.played() =~= Seq::<SongView>::empty());
    }

    /// The upcoming songs.
    pub fn current_queue(&self) -> (r: &VecDeque<SongInfo>)
        ensures
            song_views(r@) == self.upcoming(),
    {
        &self.songs
    }

    /// Returns a copy of the upcoming song at `index`, if there is one.
    pub fn get(&self, index: usize) -> (r: Option<SongInfo>)
        ensures
            index < self.upcoming().len() ==> (r matches Some(s) && s@ == self.upcoming()[index as int]),
            index >= self.upcoming().len() ==> r is None,
    {
        if index < self.songs.len() {
            Some(self.songs[index].duplicate())
        } else {
            None
        }
    }

    /// Returns a copy of the song that `next` would hand out, leaving the
    /// queue unchanged.
    pub fn peek_next(&self) -> (r: Option<SongInfo>)
        ensures
            self.upcoming().len() > 0 ==> (r matches Some(s) && s@ == self.upcoming()[0]),
            self.upcoming().len() == 0 ==> r is None,
    {
        self.get(0)
    }

    /// Returns `true` if the queue is empty.
    pub fn is_empty(&self) -> (r: bool)
        ensures
            r == (self.upcoming().len() == 0),
    {
        self.songs.len() == 0
    }

    /// Returns the number of songs in the queue.
    pub fn len(&self) -> (r: usize)
        ensures
            r == self.upcoming().len(),
    {
        self.songs.len()
    }

    /// Shuffles the upcoming songs randomly while preserving history.
    pub fn shuffle(&mut self)
        requires
            old(self).wf(),
        ensures
            final(self).wf(),
            is_permutation(old(self).upcoming(), final(self).upcoming()),
            final(self).played() == old(self).played(),
            final(self).cursor() == old(self).cursor(),
    {
        let ghost before = self.songs@;
        let ghost hist = self.history@;
        let ghost cur = self.current_index;
        let mut songs: Vec<SongInfo> = Vec::new();
        while self.songs.len() > 0
            invariant
                songs@ + self.songs@ == before,
                self.history@ == hist,
                self.current_index == cur,
            decreases self.songs.len(),
        {
            let ghost s0 = self.songs@;
            match self.songs.pop_front() {
                Some(s) => {
                    songs.push(s);
                    assert(songs@ + self.songs@ =~= before);
                },
                None => {},
            }
        }
        assert(songs@ =~= before);
        shuffle_in_place(&mut songs);
        let ghost shuffled = songs@;
        let ghost p = choose|p: Seq<int>| is_permutation_by(before, shuffled, p);
        let mut rest = songs;
        self.songs = VecDeque::new();
        while rest.len() > 0
            invariant
                self.songs@ + rest@ == shuffled,
                self.history@ == hist,
                self.current_index == cur,
            decreases rest.len(),
        {
            let s = rest.remove(0);
            self.songs.push_back(s);
            assert(self.songs@ + rest@ =~= shuffled);
        }
        assert(self.songs@ =~= shuffled);
        assert(is_permutation_by(song_views(before), song_views(shuffled), p));
    }
}

impl Default for PlaybackQueue {
    fn default() -> (q: Self)
        ensures
            q.wf(),
            q.upcoming() == Seq::<SongView>::empty(),
            q.played() == Seq::<SongView>::empty(),
            q.cursor() is None,
    {
        Self::new()
    }
}

} // verus!
