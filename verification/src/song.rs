//! Song metadata carried between the library, the queue and the player.
use vstd::prelude::*;

verus! {

/// What a [`SongInfo`] denotes: its fields as mathematical values.
pub struct SongView {
    pub id: Seq<char>,
    pub file_path: Seq<char>,
    pub title: Seq<char>,
    pub artist: Seq<char>,
    pub album: Seq<char>,
    pub duration_ms: u64,
    pub cover_art: Option<Seq<u8>>,
}

/// Metadata about a song that can be loaded by the player.
///
/// Durations are kept in whole milliseconds.
#[derive(Debug, Clone)]
pub struct SongInfo {
    /// Identifier of the song in the recommendation index.
    pub id: String,
    /// Absolute filesystem path to the audio file.
    pub file_path: String,
    /// Track title.
    pub title: String,
    /// Artist name.
    pub artist: String,
    /// Album name.
    pub album: String,
    /// Duration of the track in milliseconds.
    pub duration_ms: u64,
    /// Raw cover art bytes extracted from embedded tags, if any.
    pub cover_art: Option<Vec<u8>>,
}

impl View for SongInfo {
    type V = SongView;

    open spec fn view(&self) -> SongView {
        SongView {
            id: self.id@,
            file_path: self.file_path@,
            title: self.title@,
            artist: self.artist@,
            album: self.album@,
            duration_ms: self.duration_ms,
            cover_art: match self.cover_art {
                Some(v) => Some(v@),
                None => None,
            },
        }
    }
}

/// Copies a byte vector element by element.
pub fn copy_bytes(v: &Vec<u8>) -> (r: Vec<u8>)
    ensures
        r@ == v@,
{
    let mut r: Vec<u8> = Vec::new();
    let mut i: usize = 0;
    while i < v.len()
        invariant
            i <= v.len(),
            r@ == v@.take(i as int),
        decreases v.len() - i,
    {
        r.push(v[i]);
        i = i + 1;
        assert(r@ =~= v@.take(i as int));
    }
    assert(v@.take(v.len() as int) =~= v@);
    r
}

impl SongInfo {
    /// Returns a copy of this song that denotes the same value.
    pub fn duplicate(&self) -> (r: SongInfo)
        ensures
            r@ == self@,
    {
        SongInfo {
            id: self.id.clone(),
            file_path: self.file_path.clone(),
            title: self.title.clone(),
            artist: self.artist.clone(),
            album: self.album.clone(),
            duration_ms: self.duration_ms,
            cover_art: match &self.cover_art {
                Some(v) => Some(copy_bytes(v)),
                None => None,
            },
        }
    }
}

/// What a [`SongRecord`] denotes.
pub struct RecordView {
    pub id: Seq<char>,
    pub file_path: Seq<char>,
    pub title: Seq<char>,
    pub artist: Seq<char>,
    pub album: Seq<char>,
    pub duration_secs: u32,
}

/// An indexed song of the library (the fields the player works with).
#[derive(Debug, Clone)]
pub struct SongRecord {
    pub id: String,
    pub file_path: String,
    pub title: String,
    pub artist: String,
    pub album: String,
    /// Duration in whole seconds.
    pub duration_secs: u32,
}

impl View for SongRecord {
    type V = RecordView;

    open spec fn view(&self) -> RecordView {
        RecordView {
            id: self.id@,
            file_path: self.file_path@,
            title: self.title@,
            artist: self.artist@,
            album: self.album@,
            duration_secs: self.duration_secs,
        }
    }
}

/// The song the player loads for a library record (no cover art yet).
pub open spec fn record_song(r: RecordView) -> SongView {
    SongView {
        id: r.id,
        file_path: r.file_path,
        title: r.title,
        artist: r.artist,
        album: r.album,
        duration_ms: (r.duration_secs * 1000) as u64,
        cover_art: None,
    }
}

impl SongRecord {
    /// Returns a copy of this record that denotes the same value.
    pub fn duplicate(&self) -> (r: SongRecord)
        ensures
            r@ == self@,
    {
        SongRecord {
            id: self.id.clone(),
            file_path: self.file_path.clone(),
            title: self.title.clone(),
            artist: self.artist.clone(),
            album: self.album.clone(),
            duration_secs: self.duration_secs,
        }
    }

    /// The song the player loads for this record.
    pub fn to_song_info(&self) -> (r: SongInfo)
        ensures
            r@ == record_song(self@),
    {
        SongInfo {
            id: self.id.clone(),
            file_path: self.file_path.clone(),
            title: self.title.clone(),
            artist: self.artist.clone(),
            album: self.album.clone(),
            duration_ms: self.duration_secs as u64 * 1000,
            cover_art: None,
        }
    }
}

/// Copies a list of records.
pub fn copy_records(v: &Vec<SongRecord>) -> (r: Vec<SongRecord>)
    ensures
        records_view(r@) == records_view(v@),
{
    let mut r: Vec<SongRecord> = Vec::new();
    let mut i: usize = 0;
    while i < v.len()
        invariant
            i <= v.len(),
            records_view(r@) == records_view(v@).take(i as int),
        decreases v.len() - i,
    {
        let d = v[i].duplicate();
        let ghost old_r = r@;
        r.push(d);
        assert(records_view(r@) =~= records_view(old_r).push(d@));
        assert(records_view(v@).take(i + 1) =~= records_view(v@).take(i as int).push(v@[i as int]@));
        i = i + 1;
    }
    assert(records_view(v@).take(v.len() as int) =~= records_view(v@));
    r
}

/// The views of a sequence of records.
pub open spec fn records_view(s: Seq<SongRecord>) -> Seq<RecordView> {
    s.map_values(|x: SongRecord| x@)
}

} // verus!
