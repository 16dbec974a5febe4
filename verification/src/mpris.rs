//! What the player publishes to the desktop media-control service.
//!
//! The service itself (the bus connection and its objects) is run by the
//! application; this module holds the answers the player gives and the
//! metadata snapshot taken from the player's state.
use vstd::prelude::*;
use crate::playback::PlaybackStatus;
use crate::player::{AppState, MprisCommand};
use crate::text::{chars_of, string_from_chars};

verus! {

broadcast use vstd::string::group_string_axioms;

/// The root object of the media-player interface.
pub struct MprisRoot;

impl MprisRoot {
    /// A request to raise the player's window. The player cannot raise its
    /// window, and ignores the request.
    pub fn raise(&self) {
    }

    /// The player can be asked to quit.
    pub fn can_quit(&self) -> (r: bool)
        ensures
            r,
    {
        true
    }

    /// The player cannot raise its window.
    pub fn can_raise(&self) -> (r: bool)
        ensures
            !r,
    {
        false
    }

    /// The player offers no track list.
    pub fn has_track_list(&self) -> (r: bool)
        ensures
            !r,
    {
        false
    }

    /// The player's name.
    pub fn identity(&self) -> (r: &'static str)
        ensures
            r@ == "Musico"@,
    {
        "Musico"
    }

    /// The player's desktop entry.
    pub fn desktop_entry(&self) -> (r: &'static str)
        ensures
            r@ == "musico"@,
    {
        "musico"
    }

    /// The URI schemes the player opens.
    pub fn supported_uri_schemes(&self) -> (r: Vec<&'static str>)
        ensures
            r@.len() == 1,
            r@[0]@ == "file"@,
    {
        vec!["file"]
    }

    /// The audio types the player plays.
    pub fn supported_mime_types(&self) -> (r: Vec<&'static str>)
        ensures
            r@.len() == 6,
            r@[0]@ == "audio/mpeg"@ && r@[1]@ == "audio/flac"@ && r@[2]@ == "audio/ogg"@,
            r@[3]@ == "audio/wav"@ && r@[4]@ == "audio/mp4"@ && r@[5]@ == "audio/aac"@,
    {
        vec!["audio/mpeg", "audio/flac", "audio/ogg", "audio/wav", "audio/mp4", "audio/aac"]
    }
}

/// A request made through the media-control player interface.
#[derive(Debug, Clone, Copy, PartialEq, Eq, Structural)]
pub enum PlayerRequest {
    Next,
    Previous,
    Pause,
    PlayPause,
    Stop,
    Play,
    /// Relative seek in microseconds.
    Seek(i64),
    /// Volume in thousandths.
    SetVolume(i64),
}

/// The command a request is passed on as: pause, play and play/pause all
/// toggle playback.
pub open spec fn command_spec(req: PlayerRequest) -> MprisCommand {
    match req {
        PlayerRequest::Next => MprisCommand::Next,
        PlayerRequest::Previous => MprisCommand::Previous,
        PlayerRequest::Pause => MprisCommand::PlayPause,
        PlayerRequest::PlayPause => MprisCommand::PlayPause,
        PlayerRequest::Stop => MprisCommand::Stop,
        PlayerRequest::Play => MprisCommand::PlayPause,
        PlayerRequest::Seek(us) => MprisCommand::Seek(us),
        PlayerRequest::SetVolume(v) => MprisCommand::SetVolume(v),
    }
}

/// The command for a request (see `command_spec`).
pub fn command_for(req: PlayerRequest) -> (r: MprisCommand)
    ensures
        r == command_spec(req),
{
    match req {
        PlayerRequest::Next => MprisCommand::Next,
        PlayerRequest::Previous => MprisCommand::Previous,
        PlayerRequest::Pause => MprisCommand::PlayPause,
        PlayerRequest::PlayPause => MprisCommand::PlayPause,
        PlayerRequest::Stop => MprisCommand::Stop,
        PlayerRequest::Play => MprisCommand::PlayPause,
        PlayerRequest::Seek(us) => MprisCommand::Seek(us),
        PlayerRequest::SetVolume(v) => MprisCommand::SetVolume(v),
    }
}

/// Metadata snapshot for the media-control properties.
#[derive(Debug, Clone)]
pub struct MprisMetadata {
    pub track_id: String,
    pub title: String,
    pub artist: String,
    pub album: String,
    /// Length of the track in microseconds.
    pub duration_us: i64,
    pub art_url: String,
    /// `"Playing"`, `"Paused"` or `"Stopped"`.
    pub playback_status: String,
    /// Volume in thousandths.
    pub volume_permille: u32,
    /// Position in microseconds.
    pub position_us: i64,
}

/// The status name the media-control service shows.
pub open spec fn status_name(s: PlaybackStatus) -> Seq<char> {
    match s {
        PlaybackStatus::Playing => "Playing"@,
        PlaybackStatus::Paused => "Paused"@,
        _ => "Stopped"@,
    }
}

/// The media controls tell the three states apart: a paused player is shown
/// as "Paused", a playing one as "Playing", and every other one (stopped or
/// still buffering) as "Stopped"; the three names differ.
pub proof fn lemma_status_names(st: PlaybackStatus)
    ensures
        st == PlaybackStatus::Paused <==> status_name(st) == "Paused"@,
        st == PlaybackStatus::Playing <==> status_name(st) == "Playing"@,
        st != PlaybackStatus::Paused && st != PlaybackStatus::Playing <==> status_name(st) == "Stopped"@,
{
    reveal_strlit("Paused");
    reveal_strlit("Playing");
    reveal_strlit("Stopped");
    assert("Paused"@.len() != "Playing"@.len());
    assert("Paused"@.len() != "Stopped"@.len());
    assert("Playing"@[0] != "Stopped"@[0]);
}

/// Microseconds of a duration in milliseconds, saturating at `i64::MAX`.
pub open spec fn micros_of(ms: u64) -> i64 {
    if ms * 1000 > i64::MAX {
        i64::MAX
    } else {
        (ms * 1000) as i64
    }
}

fn to_micros(ms: u64) -> (r: i64)
    ensures
        r == micros_of(ms),
{
    if ms > 9_223_372_036_854_775 {
        i64::MAX
    } else {
        (ms * 1000) as i64
    }
}

/// The metadata the media-control service publishes for the player's
/// state: the current song's id and tags (empty without a song), times in
/// microseconds, the status name and the volume.
pub fn metadata_for(state: &AppState) -> (r: MprisMetadata)
    ensures
        r.track_id@ == (match state@.current_song {
            Some(c) => c.id,
            None => Seq::<char>::empty(),
        }),
        r.title@ == (match state@.current_song {
            Some(c) => c.title,
            None => Seq::<char>::empty(),
        }),
        r.artist@ == (match state@.current_song {
            Some(c) => c.artist,
            None => Seq::<char>::empty(),
        }),
        r.album@ == (match state@.current_song {
            Some(c) => c.album,
            None => Seq::<char>::empty(),
        }),
        r.duration_us == micros_of(state.duration_ms),
        r.art_url@ == Seq::<char>::empty(),
        r.playback_status@ == status_name(state.playback_status),
        state.playback_status == PlaybackStatus::Paused ==> r.playback_status@ == "Paused"@,
        state.playback_status == PlaybackStatus::Playing ==> r.playback_status@ == "Playing"@,
        state.playback_status != PlaybackStatus::Paused && state.playback_status != PlaybackStatus::Playing
            ==> r.playback_status@ == "Stopped"@,
        r.volume_permille == state.volume_permille,
        r.position_us == micros_of(state.position_ms),
{
    let status = match state.playback_status {
        PlaybackStatus::Playing => "Playing",
        PlaybackStatus::Paused => "Paused",
        _ => "Stopped",
    };
    let (track_id, title, artist, album) = match &state.current_song {
        Some(c) => (c.id.clone(), c.title.clone(), c.artist.clone(), c.album.clone()),
        None => (String::new(), String::new(), String::new(), String::new()),
    };
    MprisMetadata {
        track_id,
        title,
        artist,
        album,
        duration_us: to_micros(state.duration_ms),
        art_url: String::new(),
        playback_status: status.to_string(),
        volume_permille: state.volume_permille,
        position_us: to_micros(state.position_ms),
    }
}

/// A track id with its dashes made underscores, as bus object paths need.
pub open spec fn path_safe(id: Seq<char>) -> Seq<char> {
    id.map_values(|c: char| if c == '-' { '_' } else { c })
}

/// The object path under which a track is published.
pub fn track_object_path(track_id: &str) -> (r: String)
    ensures
        r@ == "/org/mpris/MediaPlayer2/Track/"@ + path_safe(track_id@),
{
    let prefix = chars_of("/org/mpris/MediaPlayer2/Track/");
    let id = chars_of(track_id);
    let mut out = prefix;
    let ghost p = out@;
    let mut i: usize = 0;
    while i < id.len()
        invariant
            i <= id@.len(),
            id@ == track_id@,
            p == "/org/mpris/MediaPlayer2/Track/"@,
            out@ == p + path_safe(id@.take(i as int)),
        decreases id.len() - i,
    {
        let c = id[i];
        out.push(if c == '-' { '_' } else { c });
        assert(path_safe(id@.take(i + 1)) =~= path_safe(id@.take(i as int)).push(if c == '-' { '_' } else { c }));
        i = i + 1;
    }
    assert(id@.take(id@.len() as int) =~= id@);
    string_from_chars(&out)
}

} // verus!
