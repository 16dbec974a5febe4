//! The player's application state and how it reacts to each message.
//!
//! Every user action, engine event and background result arrives as a
//! [`Message`]. [`AppState::update`] changes the state accordingly and lists
//! the [`Effect`]s the application then carries out (commands to the
//! playback engine, background jobs, saving the settings).
use vstd::prelude::*;
use crate::config::AppConfig;
use crate::crossfade::{curve_from_id, curve_id, CrossfadeConfig, CrossfadeCurve};
use crate::eq::{preset_by_id, preset_for};
use crate::lyrics::{Lyrics, LyricsView};
use crate::modes::{
    LibraryViewMode, NormalizationMode, RepeatMode, ShuffleMode, SortField, UpdateStatus, UpdateView,
    normalization_from_id, normalization_id,
};
use crate::perm::random_index;
use crate::playback::{clamp_volume, clamped_volume, opt_song, PlaybackEvent, PlaybackStatus};
use crate::queue::{PlaybackQueue, QueueView};
use crate::screen;
use crate::song::{copy_bytes, copy_records, record_song, records_view, RecordView, SongInfo, SongRecord, SongView};
use crate::text::{contains_seq, lowercase, str_contains, str_eq, to_lowercase};
use crate::timer::{SleepTimer, TimerStatus, timer_status};

verus! {

broadcast use vstd::string::group_string_axioms;

/// A key the player responds to.
#[derive(Debug, Clone, Copy, PartialEq, Eq, Structural)]
pub enum Key {
    Space,
    ArrowLeft,
    ArrowRight,
    ArrowUp,
    ArrowDown,
    Escape,
    Char(char),
}

/// A command from the desktop media-control service.
#[derive(Debug, Clone, Copy, PartialEq, Eq, Structural)]
pub enum MprisCommand {
    PlayPause,
    Next,
    Previous,
    Stop,
    /// Relative seek in microseconds.
    Seek(i64),
    /// Absolute volume in thousandths.
    SetVolume(i64),
}

/// Everything the player reacts to.
pub enum Message {
    PlaySong(SongRecord),
    Pause,
    Resume,
    Next,
    Previous,
    /// Seek to a position in milliseconds.
    Seek(u64),
    /// Set the volume in thousandths.
    SetVolume(u32),
    ToggleMute,
    PlaybackTick,
    Engine(PlaybackEvent),
    NavigateTo(screen::View),
    SearchChanged(String),
    ToggleLibraryView,
    ScanLibrary,
    IndexProgress(usize, usize),
    IndexComplete(Vec<SongRecord>),
    RecommendationsUpdated(Vec<SongRecord>),
    AddToQueue(SongRecord),
    RemoveFromQueue(usize),
    ToggleShuffle,
    ToggleRepeat,
    ToggleLike,
    PickFolder,
    MusicFolderChanged(String),
    SetPalette(String),
    SetFontMode(String),
    CheckForUpdate,
    UpdateAvailable(String, String),
    DownloadUpdate(String),
    UpdateDownloaded,
    UpdateError(String),
    WindowResized(u32, u32),
    RecommenderReady,
    PlaybackEngineReady,
    MprisReady,
    LoadAllSongs(Vec<SongRecord>),
    KeyPressed(Key),
    SetEQPreset(String),
    /// A band of the equalizer was moved (its gain is kept by the signal path).
    SetEQBand(usize),
    ToggleEQ,
    MprisIncoming(MprisCommand),
    LyricsLoaded(Lyrics),
    ToggleLyrics,
    SetNormalizationMode(NormalizationMode),
    StatsLoaded,
    RefreshStats,
    /// Minutes (0 cancels the timer).
    SetSleepTimer(u64),
    SleepTimerExpired,
    ToggleCrossfade,
    /// Milliseconds.
    SetCrossfadeDuration(u32),
    SetCrossfadeCurve(String),
}

/// What the application does after handling a message.
#[derive(Debug)]
pub enum Effect {
    /// Tell the engine to play this song.
    Play(SongInfo),
    Pause,
    Resume,
    Stop,
    /// Tell the engine to seek (milliseconds).
    Seek(u64),
    /// Tell the engine the volume (thousandths).
    SetVolume(u32),
    ToggleMute,
    /// Hint the engine at the song that comes next.
    PreloadNext(SongInfo),
    /// Send the equalizer state (on/off, with the current gains).
    SetEq(bool),
    /// Send the loudness gain for the song with this id (unity when `None`).
    SetNormalization(Option<String>),
    SetCrossfade(CrossfadeConfig),
    /// Persist the settings.
    SaveConfig,
    /// Persist the last sleep-timer duration (minutes).
    SaveSleepTimer(u64),
    /// Load the sidecar lyrics of the audio file at this path.
    LoadLyrics(String),
    /// Compute recommendations following the song with this id.
    RequestRecommendations(String),
    LoadAllSongs,
    LoadStats,
    /// Scan and index this folder.
    StartScan(String),
    /// Record a listen in the history.
    LogListen { song_id: String, listened_secs: u32, duration_secs: u32 },
    /// Extract the dominant color of this cover art.
    ExtractArtColor(Vec<u8>),
    /// Tint the background with the palette's primary color.
    ResetArtTint,
    PickFolder,
    CheckForUpdate,
    DownloadUpdate(String),
    /// Publish the playback state to the media-control service.
    UpdateMpris,
    /// Handle `Message::SleepTimerExpired` next.
    SleepTimerExpired,
}

/// What an effect denotes.
#[verifier::ext_equal]
pub enum EffectView {
    Play(SongView),
    Pause,
    Resume,
    Stop,
    Seek(u64),
    SetVolume(u32),
    ToggleMute,
    PreloadNext(SongView),
    SetEq(bool),
    SetNormalization(Option<Seq<char>>),
    SetCrossfade(CrossfadeConfig),
    SaveConfig,
    SaveSleepTimer(u64),
    LoadLyrics(Seq<char>),
    RequestRecommendations(Seq<char>),
    LoadAllSongs,
    LoadStats,
    StartScan(Seq<char>),
    LogListen { song_id: Seq<char>, listened_secs: u32, duration_secs: u32 },
    ExtractArtColor(Seq<u8>),
    ResetArtTint,
    PickFolder,
    CheckForUpdate,
    DownloadUpdate(Seq<char>),
    UpdateMpris,
    SleepTimerExpired,
}

impl View for Effect {
    type V = EffectView;

    open spec fn view(&self) -> EffectView {
        match self {
            Effect::Play(s) => EffectView::Play(s@),
            Effect::Pause => EffectView::Pause,
            Effect::Resume => EffectView::Resume,
            Effect::Stop => EffectView::Stop,
            Effect::Seek(p) => EffectView::Seek(*p),
            Effect::SetVolume(v) => EffectView::SetVolume(*v),
            Effect::ToggleMute => EffectView::ToggleMute,
            Effect::PreloadNext(s) => EffectView::PreloadNext(s@),
            Effect::SetEq(b) => EffectView::SetEq(*b),
            Effect::SetNormalization(id) => EffectView::SetNormalization(match id {
                Some(i) => Some(i@),
                None => None,
            }),
            Effect::SetCrossfade(c) => EffectView::SetCrossfade(*c),
            Effect::SaveConfig => EffectView::SaveConfig,
            Effect::SaveSleepTimer(m) => EffectView::SaveSleepTimer(*m),
            Effect::LoadLyrics(p) => EffectView::LoadLyrics(p@),
            Effect::RequestRecommendations(id) => EffectView::RequestRecommendations(id@),
            Effect::LoadAllSongs => EffectView::LoadAllSongs,
            Effect::LoadStats => EffectView::LoadStats,
            Effect::StartScan(f) => EffectView::StartScan(f@),
            Effect::LogListen { song_id, listened_secs, duration_secs } => EffectView::LogListen {
                song_id: song_id@,
                listened_secs: *listened_secs,
                duration_secs: *duration_secs,
            },
            Effect::ExtractArtColor(b) => EffectView::ExtractArtColor(b@),
            Effect::ResetArtTint => EffectView::ResetArtTint,
            Effect::PickFolder => EffectView::PickFolder,
            Effect::CheckForUpdate => EffectView::CheckForUpdate,
            Effect::DownloadUpdate(u) => EffectView::DownloadUpdate(u@),
            Effect::UpdateMpris => EffectView::UpdateMpris,
            Effect::SleepTimerExpired => EffectView::SleepTimerExpired,
        }
    }
}

/// The views of a list of effects.
pub open spec fn effects_view(s: Seq<Effect>) -> Seq<EffectView> {
    s.map_values(|e: Effect| e@)
}

/// The player's state.
pub struct AppState {
    pub active_view: screen::View,
    pub current_song: Option<SongInfo>,
    pub playback_status: PlaybackStatus,
    pub position_ms: u64,
    pub duration_ms: u64,
    /// Volume in thousandths.
    pub volume_permille: u32,
    pub listened_secs: u32,
    pub is_liked: bool,
    pub library: Vec<SongRecord>,
    pub filtered_library: Vec<SongRecord>,
    pub search_query: String,
    pub library_view_mode: LibraryViewMode,
    pub sort_field: SortField,
    pub sort_ascending: bool,
    pub queue: PlaybackQueue,
    pub recommendations: Vec<SongRecord>,
    pub shuffle_mode: ShuffleMode,
    pub repeat_mode: RepeatMode,
    pub palette_id: String,
    pub font_mode_id: String,
    pub music_folder: Option<String>,
    pub is_indexing: bool,
    /// (done, total)
    pub index_progress: (usize, usize),
    pub update_status: UpdateStatus,
    pub eq_enabled: bool,
    pub eq_preset_id: String,
    pub normalization_mode: NormalizationMode,
    pub sleep_timer: Option<SleepTimer>,
    /// Volume scale of the sleep timer's fade, in thousandths.
    pub sleep_volume_permille: u32,
    pub lyrics: Lyrics,
    pub show_lyrics: bool,
    pub has_stats: bool,
    pub stats_loading: bool,
    pub crossfade: CrossfadeConfig,
    pub recommender_ready: bool,
    pub engine_ready: bool,
    pub mpris_ready: bool,
    /// Window size in pixels (width, height).
    pub window_size: (u32, u32),
}

/// What the player's state denotes.
pub struct AppView {
    pub active_view: screen::View,
    pub current_song: Option<SongView>,
    pub playback_status: PlaybackStatus,
    pub position_ms: u64,
    pub duration_ms: u64,
    pub volume_permille: u32,
    pub listened_secs: u32,
    pub is_liked: bool,
    pub library: Seq<RecordView>,
    pub filtered_library: Seq<RecordView>,
    pub search_query: Seq<char>,
    pub library_view_mode: LibraryViewMode,
    pub sort_field: SortField,
    pub sort_ascending: bool,
    pub queue: QueueView,
    pub queue_wf: bool,
    pub recommendations: Seq<RecordView>,
    pub shuffle_mode: ShuffleMode,
    pub repeat_mode: RepeatMode,
    pub palette_id: Seq<char>,
    pub font_mode_id: Seq<char>,
    pub music_folder: Option<Seq<char>>,
    pub is_indexing: bool,
    pub index_progress: (usize, usize),
    pub update_status: UpdateView,
    pub eq_enabled: bool,
    pub eq_preset_id: Seq<char>,
    pub normalization_mode: NormalizationMode,
    /// (total seconds, fade seconds) of the running sleep timer.
    pub sleep_timer: Option<(int, int)>,
    pub sleep_volume_permille: u32,
    pub lyrics: LyricsView,
    pub show_lyrics: bool,
    pub has_stats: bool,
    pub stats_loading: bool,
    pub crossfade: CrossfadeConfig,
    pub recommender_ready: bool,
    pub engine_ready: bool,
    pub mpris_ready: bool,
    pub window_size: (u32, u32),
}

/// The view of an optional string.
pub open spec fn opt_str(o: Option<String>) -> Option<Seq<char>> {
    match o {
        Some(s) => Some(s@),
        None => None,
    }
}

impl View for AppState {
    type V = AppView;

    open spec fn view(&self) -> AppView {
        AppView {
            active_view: self.active_view,
            current_song: opt_song(self.current_song),
            playback_status: self.playback_status,
            position_ms: self.position_ms,
            duration_ms: self.duration_ms,
            volume_permille: self.volume_permille,
            listened_secs: self.listened_secs,
            is_liked: self.is_liked,
            library: records_view(self.library@),
            filtered_library: records_view(self.filtered_library@),
            search_query: self.search_query@,
            library_view_mode: self.library_view_mode,
            sort_field: self.sort_field,
            sort_ascending: self.sort_ascending,
            queue: self.queue@,
            queue_wf: self.queue.wf(),
            recommendations: records_view(self.recommendations@),
            shuffle_mode: self.shuffle_mode,
            repeat_mode: self.repeat_mode,
            palette_id: self.palette_id@,
            font_mode_id: self.font_mode_id@,
            music_folder: opt_str(self.music_folder),
            is_indexing: self.is_indexing,
            index_progress: self.index_progress,
            update_status: self.update_status@,
            eq_enabled: self.eq_enabled,
            eq_preset_id: self.eq_preset_id@,
            normalization_mode: self.normalization_mode,
            sleep_timer: match self.sleep_timer {
                Some(t) => Some((t.total(), t.fade())),
                None => None,
            },
            sleep_volume_permille: self.sleep_volume_permille,
            lyrics: self.lyrics@,
            show_lyrics: self.show_lyrics,
            has_stats: self.has_stats,
            stats_loading: self.stats_loading,
            crossfade: self.crossfade,
            recommender_ready: self.recommender_ready,
            engine_ready: self.engine_ready,
            mpris_ready: self.mpris_ready,
            window_size: self.window_size,
        }
    }
}

/// A library record matches a (lowercased) search query by title or artist.
pub open spec fn record_matches(r: RecordView, lower_q: Seq<char>) -> bool {
    contains_seq(lowercase(r.title), lower_q) || contains_seq(lowercase(r.artist), lower_q)
}

/// The records of `lib` that match the lowercased query, in order.
pub open spec fn search_results(lib: Seq<RecordView>, lower_q: Seq<char>) -> Seq<RecordView>
    decreases lib.len(),
{
    if lib.len() == 0 {
        lib
    } else if record_matches(lib.last(), lower_q) {
        search_results(lib.drop_last(), lower_q).push(lib.last())
    } else {
        search_results(lib.drop_last(), lower_q)
    }
}

/// What the library shows for a search query: everything for an empty
/// query, the matching records otherwise.
pub open spec fn filtered_for(lib: Seq<RecordView>, q: Seq<char>) -> Seq<RecordView> {
    if lowercase(q).len() == 0 {
        lib
    } else {
        search_results(lib, lowercase(q))
    }
}

/// The records of `lib` matching the query `q`; an empty query shows the
/// whole library.
pub fn search_library(lib: &Vec<SongRecord>, q: &str) -> (r: Vec<SongRecord>)
    ensures
        records_view(r@) == filtered_for(records_view(lib@), q@),
        q@.len() == 0 ==> records_view(r@) == records_view(lib@),
{
    let lower_q = to_lowercase(q);
    if lower_q.as_str().is_empty() {
        return copy_records(lib);
    }
    let mut out: Vec<SongRecord> = Vec::new();
    let mut i: usize = 0;
    proof {
        assert(records_view(lib@).take(0) =~= Seq::<RecordView>::empty());
    }
    while i < lib.len()
        invariant
            i <= lib.len(),
            lower_q@ == lowercase(q@),
            records_view(out@) == search_results(records_view(lib@).take(i as int), lower_q@),
        decreases lib.len() - i,
    {
        let t = to_lowercase(lib[i].title.as_str());
        let a = to_lowercase(lib[i].artist.as_str());
        let hit = str_contains(t.as_str(), lower_q.as_str()) || str_contains(a.as_str(), lower_q.as_str());
        let ghost pre = records_view(lib@).take(i as int);
        proof {
            assert(records_view(lib@).take(i + 1).drop_last() =~= pre);
            assert(records_view(lib@).take(i + 1).last() == lib@[i as int]@);
        }
        if hit {
            let d = lib[i].duplicate();
            let ghost o = out@;
            out.push(d);
            assert(records_view(out@) =~= records_view(o).push(d@));
        }
        i = i + 1;
    }
    assert(records_view(lib@).take(lib.len() as int) =~= records_view(lib@));
    out
}

/// `e` when the engine is running, nothing otherwise.
pub open spec fn when_engine(s: AppView, e: EffectView) -> Seq<EffectView> {
    if s.engine_ready {
        seq![e]
    } else {
        Seq::empty()
    }
}

/// The queue after `next` hands out its first song.
pub open spec fn queue_advanced(q: QueueView) -> QueueView {
    QueueView {
        upcoming: q.upcoming.drop_first(),
        played: q.played.push(q.upcoming[0]),
        cursor: Some(q.played.len() as int),
    }
}

/// Advancing to the next song: the queue first; then, with Smart Radio, the
/// first recommendation; then, shuffling, a random library song; then, with
/// repeat-all, the first library song; otherwise nothing plays.
#[verifier::opaque]
pub open spec fn play_next_post(s: AppView, t: AppView, effs: Seq<EffectView>) -> bool {
    if s.queue.upcoming.len() > 0 {
        t == AppView { queue: queue_advanced(s.queue), ..s }
            && effs == when_engine(s, EffectView::Play(s.queue.upcoming[0]))
    } else if s.shuffle_mode == ShuffleMode::SmartRadio && s.recommendations.len() > 0 {
        t == AppView { recommendations: s.recommendations.drop_first(), ..s }
            && effs == when_engine(s, EffectView::Play(record_song(s.recommendations[0])))
    } else if s.shuffle_mode == ShuffleMode::Shuffle && s.library.len() > 0 {
        t == s && (if s.engine_ready {
            exists|i: int| 0 <= i < s.library.len() && effs == seq![EffectView::Play(record_song(#[trigger] s.library[i]))]
        } else {
            effs.len() == 0
        })
    } else if s.repeat_mode == RepeatMode::All && s.library.len() > 0 {
        t == s && effs == when_engine(s, EffectView::Play(record_song(s.library[0])))
    } else {
        t == s && effs.len() == 0
    }
}

/// Going back: with the engine running, the queue steps back in its history
/// and the song there plays; without an earlier song nothing happens.
#[verifier::opaque]
pub open spec fn previous_post(s: AppView, t: AppView, effs: Seq<EffectView>) -> bool {
    match s.queue.cursor {
        Some(i) if s.engine_ready && i > 0 => {
            &&& t == AppView { queue: QueueView { cursor: Some(i - 1), ..s.queue }, ..s }
            &&& effs == seq![EffectView::Play(s.queue.played[i - 1])]
        },
        _ => t == s && effs.len() == 0,
    }
}

/// The song whose loudness sets the normalization gain: the current song,
/// unless normalization is off.
pub open spec fn norm_target(s: AppView) -> Option<Seq<char>> {
    if s.normalization_mode == NormalizationMode::Off {
        None
    } else {
        match s.current_song {
            Some(c) => Some(c.id),
            None => None,
        }
    }
}

/// `[e]` when `cond` holds, nothing otherwise.
pub open spec fn opt_eff(cond: bool, e: EffectView) -> Seq<EffectView> {
    if cond {
        seq![e]
    } else {
        Seq::empty()
    }
}

/// Whole seconds of a duration in milliseconds, saturating at `u32::MAX`.
pub open spec fn whole_secs(ms: u64) -> u32 {
    if ms / 1000 > u32::MAX { u32::MAX } else { (ms / 1000) as u32 }
}

/// Space (and the media-control play/pause): pause while playing, resume
/// while paused.
pub open spec fn play_pause_effects(s: AppView) -> Seq<EffectView> {
    if s.playback_status == PlaybackStatus::Playing {
        when_engine(s, EffectView::Pause)
    } else if s.playback_status == PlaybackStatus::Paused {
        when_engine(s, EffectView::Resume)
    } else {
        Seq::empty()
    }
}

/// The position a relative seek of `offset_ms` lands on, kept within the
/// song.
pub open spec fn seek_target(s: AppView, offset_ms: int) -> u64 {
    let p = s.position_ms + offset_ms;
    if p < 0 {
        0
    } else if p > s.duration_ms {
        s.duration_ms
    } else {
        p as u64
    }
}

/// The position five seconds back from the current one, or the start of the
/// song when that is nearer.
pub open spec fn seek_back_target(s: AppView) -> u64 {
    if s.position_ms < 5000 {
        0
    } else {
        (s.position_ms - 5000) as u64
    }
}

/// Whole milliseconds of a signed count of microseconds, rounded toward zero.
pub open spec fn micros_to_millis(us: i64) -> int {
    if us >= 0 {
        us as int / 1000
    } else {
        -((-(us as int)) / 1000)
    }
}

/// What a key press does.
#[verifier::opaque]
pub open spec fn key_post(s: AppView, t: AppView, key: Key, effs: Seq<EffectView>) -> bool {
    match key {
        Key::Space => t == s && effs == play_pause_effects(s),
        Key::ArrowLeft => t == s && effs == when_engine(s, EffectView::Seek(seek_back_target(s))),
        Key::ArrowRight => t == s && effs == when_engine(s, EffectView::Seek(seek_target(s, 5000))),
        Key::ArrowUp => {
            let v = clamped_volume(s.volume_permille + 50);
            t == AppView { volume_permille: v, ..s } && effs == when_engine(s, EffectView::SetVolume(v))
        },
        Key::ArrowDown => {
            let v = clamped_volume(s.volume_permille - 50);
            t == AppView { volume_permille: v, ..s } && effs == when_engine(s, EffectView::SetVolume(v))
        },
        Key::Escape => effs.len() == 0 && if s.search_query.len() > 0 {
            t == AppView { search_query: Seq::empty(), filtered_library: s.library, ..s }
        } else {
            t == AppView { active_view: screen::View::NowPlaying, ..s }
        },
        Key::Char(c) => if c == 'n' {
            play_next_post(s, t, effs)
        } else if c == 'p' {
            previous_post(s, t, effs)
        } else if c == 's' {
            t == AppView { shuffle_mode: s.shuffle_mode.cycled_spec(), ..s } && effs.len() == 0
        } else if c == 'r' {
            t == AppView { repeat_mode: s.repeat_mode.cycled_spec(), ..s } && effs.len() == 0
        } else if c == 'l' {
            t == AppView { show_lyrics: !s.show_lyrics, ..s } && effs.len() == 0
        } else {
            t == s && effs.len() == 0
        },
    }
}

/// What a media-control command does.
#[verifier::opaque]
pub open spec fn mpris_post(s: AppView, t: AppView, cmd: MprisCommand, effs: Seq<EffectView>) -> bool {
    match cmd {
        MprisCommand::PlayPause => t == s && effs == play_pause_effects(s),
        MprisCommand::Next => play_next_post(s, t, effs),
        MprisCommand::Previous => previous_post(s, t, effs),
        MprisCommand::Stop => t == s && effs == when_engine(s, EffectView::Stop),
        MprisCommand::Seek(us) => t == s && effs == when_engine(s, EffectView::Seek(seek_target(s, micros_to_millis(us)))),
        MprisCommand::SetVolume(v) => t == AppView { volume_permille: clamped_volume(v as int), ..s }
            && effs == when_engine(s, EffectView::SetVolume(clamped_volume(v as int))),
    }
}

/// What an engine event does.
#[verifier::opaque]
pub open spec fn engine_event_post(s: AppView, t: AppView, ev: PlaybackEvent, effs: Seq<EffectView>) -> bool {
    match ev {
        PlaybackEvent::Playing(song) => {
            &&& t == AppView {
                playback_status: PlaybackStatus::Playing,
                duration_ms: song.duration_ms,
                position_ms: 0,
                current_song: Some(song@),
                ..s
            }
            &&& effs == match song@.cover_art {
                Some(b) => seq![EffectView::ExtractArtColor(b)],
                None => seq![EffectView::ResetArtTint] + opt_eff(
                    s.engine_ready && s.queue.upcoming.len() > 0,
                    EffectView::PreloadNext(s.queue.upcoming[0]),
                ),
            }
        },
        PlaybackEvent::Paused { position_ms } => effs.len() == 0
            && t == AppView { playback_status: PlaybackStatus::Paused, position_ms, ..s },
        PlaybackEvent::Resumed => effs.len() == 0 && t == AppView { playback_status: PlaybackStatus::Playing, ..s },
        PlaybackEvent::Stopped => effs.len() == 0 && t == AppView {
            playback_status: PlaybackStatus::Stopped,
            current_song: None,
            position_ms: 0,
            ..s
        },
        PlaybackEvent::PositionUpdate { position_ms, listened_secs } => effs.len() == 0
            && t == AppView { position_ms, listened_secs, ..s },
        PlaybackEvent::SongEnded { song_id, listened_secs, duration_ms } => {
            let log = opt_eff(s.recommender_ready, EffectView::LogListen {
                song_id: song_id@,
                listened_secs,
                duration_secs: whole_secs(duration_ms),
            });
            if s.repeat_mode == RepeatMode::One {
                t == s && effs == log + match s.current_song {
                    Some(c) => when_engine(s, EffectView::Play(c)),
                    None => Seq::empty(),
                }
            } else {
                exists|rest: Seq<EffectView>| #[trigger] play_next_post(s, t, rest) && effs == log + rest
            }
        },
        PlaybackEvent::BufferingStarted => effs.len() == 0
            && t == AppView { playback_status: PlaybackStatus::Buffering, ..s },
        PlaybackEvent::BufferingComplete => effs.len() == 0
            && t == AppView { playback_status: PlaybackStatus::Playing, ..s },
        PlaybackEvent::VolumeChanged(v) => effs.len() == 0 && t == AppView { volume_permille: v, ..s },
        PlaybackEvent::Seeked { position_ms } => effs.len() == 0 && t == AppView { position_ms, ..s },
        PlaybackEvent::Error(_) => effs.len() == 0 && t == s,
    }
}

/// What a tick of the playback clock does, given the sleep timer's status.
pub open spec fn tick_post(s: AppView, t: AppView, status: Option<TimerStatus>, effs: Seq<EffectView>) -> bool {
    let mpris = opt_eff(s.mpris_ready, EffectView::UpdateMpris);
    match status {
        Some(TimerStatus::Fading { volume_permille, .. }) => {
            let f = volume_permille as u32;
            &&& t == AppView { sleep_volume_permille: f, ..s }
            &&& effs == when_engine(s, EffectView::SetVolume(clamped_volume(s.volume_permille * f / 1000))) + mpris
        },
        Some(TimerStatus::Expired) => t == s && effs == mpris + seq![EffectView::SleepTimerExpired],
        _ => t == s && effs == mpris,
    }
}

/// Loading the statistics is due when the statistics screen opens for the
/// first time with the recommender ready.
pub open spec fn stats_due(s: AppView, v: screen::View) -> bool {
    v == screen::View::Stats && !s.has_stats && !s.stats_loading && s.recommender_ready
}

/// What `AppState::update` does with each message: the new state `t` and
/// the effects, from the old state `s`.
#[verifier::opaque]
pub open spec fn update_post(s: AppView, t: AppView, msg: Message, effs: Seq<EffectView>) -> bool {
    match msg {
        Message::PlaySong(r) => t == s && effs == if s.engine_ready {
            seq![EffectView::Play(record_song(r@)), EffectView::LoadLyrics(r@.file_path)]
                + opt_eff(s.normalization_mode != NormalizationMode::Off, EffectView::SetNormalization(norm_target(s)))
                + opt_eff(s.mpris_ready, EffectView::UpdateMpris)
                + opt_eff(s.recommender_ready, EffectView::RequestRecommendations(r@.id))
        } else {
            Seq::empty()
        },
        Message::Pause => t == s && effs == when_engine(s, EffectView::Pause),
        Message::Resume => t == s && effs == when_engine(s, EffectView::Resume),
        Message::Next => play_next_post(s, t, effs),
        Message::Previous => previous_post(s, t, effs),
        Message::Seek(p) => t == s && effs == when_engine(s, EffectView::Seek(p)),
        Message::SetVolume(v) => t == AppView { volume_permille: v, ..s }
            && effs == when_engine(s, EffectView::SetVolume(clamped_volume(v as int))) + seq![EffectView::SaveConfig],
        Message::ToggleMute => t == s && effs == when_engine(s, EffectView::ToggleMute),
        Message::PlaybackTick => match s.sleep_timer {
            Some((total, fade)) => exists|e: int| 0 <= e <= u128::MAX
                && tick_post(s, t, Some(#[trigger] timer_status(total, fade, e)), effs),
            None => tick_post(s, t, None, effs),
        },
        Message::Engine(ev) => engine_event_post(s, t, ev, effs),
        Message::NavigateTo(v) => {
            &&& t == AppView {
                active_view: v,
                stats_loading: if stats_due(s, v) { true } else { s.stats_loading },
                ..s
            }
            &&& effs == opt_eff(stats_due(s, v), EffectView::LoadStats)
        },
        Message::SearchChanged(q) => effs.len() == 0 && t == AppView {
            search_query: q@,
            filtered_library: filtered_for(s.library, q@),
            ..s
        },
        Message::ToggleLibraryView => effs == seq![EffectView::SaveConfig] && t == AppView {
            library_view_mode: match s.library_view_mode {
                LibraryViewMode::Grid => LibraryViewMode::List,
                LibraryViewMode::List => LibraryViewMode::Grid,
            },
            ..s
        },
        Message::ScanLibrary => match s.music_folder {
            Some(f) if s.recommender_ready => t == AppView { is_indexing: true, index_progress: (0, 0), ..s }
                && effs == seq![EffectView::StartScan(f)],
            _ => t == s && effs.len() == 0,
        },
        Message::IndexProgress(d, n) => effs.len() == 0 && t == AppView { index_progress: (d, n), ..s },
        Message::IndexComplete(recs) => effs.len() == 0 && t == AppView {
            is_indexing: false,
            library: records_view(recs@),
            filtered_library: records_view(recs@),
            ..s
        },
        Message::RecommendationsUpdated(recs) => effs.len() == 0
            && t == AppView { recommendations: records_view(recs@), ..s },
        Message::AddToQueue(r) => effs.len() == 0 && t == AppView {
            queue: QueueView { upcoming: s.queue.upcoming.push(record_song(r@)), ..s.queue },
            ..s
        },
        Message::RemoveFromQueue(i) => effs.len() == 0 && t == AppView {
            queue: QueueView {
                upcoming: if i < s.queue.upcoming.len() { s.queue.upcoming.remove(i as int) } else { s.queue.upcoming },
                ..s.queue
            },
            ..s
        },
        Message::ToggleShuffle => {
            &&& effs.len() == 0
            &&& t.shuffle_mode == s.shuffle_mode.cycled_spec()
            &&& t.queue.played == s.queue.played
            &&& t.queue.cursor == s.queue.cursor
            &&& if t.shuffle_mode == ShuffleMode::Shuffle {
                crate::perm::is_permutation(s.queue.upcoming, t.queue.upcoming)
            } else {
                t.queue.upcoming == s.queue.upcoming
            }
            &&& t == AppView { shuffle_mode: t.shuffle_mode, queue: t.queue, ..s }
        },
        Message::ToggleRepeat => effs.len() == 0 && t == AppView { repeat_mode: s.repeat_mode.cycled_spec(), ..s },
        Message::ToggleLike => effs.len() == 0 && t == AppView {
            is_liked: if s.current_song is Some { !s.is_liked } else { s.is_liked },
            ..s
        },
        Message::PickFolder => t == s && effs == seq![EffectView::PickFolder],
        Message::MusicFolderChanged(p) => t == AppView { music_folder: Some(p@), ..s }
            && effs == seq![EffectView::SaveConfig],
        Message::SetPalette(id) => t == AppView { palette_id: id@, ..s }
            && effs == opt_eff(s.current_song is None, EffectView::ResetArtTint) + seq![EffectView::SaveConfig],
        Message::SetFontMode(id) => t == AppView { font_mode_id: id@, ..s } && effs == seq![EffectView::SaveConfig],
        Message::CheckForUpdate => t == AppView { update_status: UpdateView::Checking, ..s }
            && effs == seq![EffectView::CheckForUpdate],
        Message::UpdateAvailable(version, url) => effs.len() == 0
            && t == AppView { update_status: UpdateView::Available { version: version@, url: url@ }, ..s },
        Message::DownloadUpdate(url) => t == AppView { update_status: UpdateView::Downloading, ..s }
            && effs == seq![EffectView::DownloadUpdate(url@)],
        Message::UpdateDownloaded => effs.len() == 0 && t == AppView { update_status: UpdateView::Ready, ..s },
        Message::UpdateError(m) => effs.len() == 0 && t == AppView { update_status: UpdateView::Error(m@), ..s },
        Message::WindowResized(w, h) => effs.len() == 0 && t == AppView { window_size: (w, h), ..s },
        Message::RecommenderReady => t == AppView { recommender_ready: true, ..s }
            && effs == seq![EffectView::LoadAllSongs],
        Message::PlaybackEngineReady => effs.len() == 0 && t == AppView { engine_ready: true, ..s },
        Message::MprisReady => effs.len() == 0 && t == AppView { mpris_ready: true, ..s },
        Message::LoadAllSongs(recs) => effs.len() == 0 && t == AppView {
            library: records_view(recs@),
            filtered_library: records_view(recs@),
            ..s
        },
        Message::KeyPressed(k) => key_post(s, t, k, effs),
        Message::SetEQPreset(id) => {
            let on = preset_for(id@) != 0;
            &&& t == AppView { eq_preset_id: id@, eq_enabled: on, ..s }
            &&& effs == when_engine(s, EffectView::SetEq(on)) + seq![EffectView::SaveConfig]
        },
        Message::SetEQBand(i) => if i < 10 {
            t == AppView { eq_preset_id: "custom"@, ..s } && effs == when_engine(s, EffectView::SetEq(s.eq_enabled))
        } else {
            t == s && effs.len() == 0
        },
        Message::ToggleEQ => t == AppView { eq_enabled: !s.eq_enabled, ..s }
            && effs == when_engine(s, EffectView::SetEq(!s.eq_enabled)) + seq![EffectView::SaveConfig],
        Message::MprisIncoming(c) => mpris_post(s, t, c, effs),
        Message::LyricsLoaded(l) => effs.len() == 0 && t == AppView { lyrics: l@, ..s },
        Message::ToggleLyrics => effs.len() == 0 && t == AppView { show_lyrics: !s.show_lyrics, ..s },
        Message::SetNormalizationMode(m) => {
            &&& t == AppView { normalization_mode: m, ..s }
            &&& effs == when_engine(s, EffectView::SetNormalization(norm_target(t))) + seq![EffectView::SaveConfig]
        },
        Message::StatsLoaded => effs.len() == 0 && t == AppView { has_stats: true, stats_loading: false, ..s },
        Message::RefreshStats => if s.recommender_ready {
            t == AppView { stats_loading: true, ..s } && effs == seq![EffectView::LoadStats]
        } else {
            t == s && effs.len() == 0
        },
        Message::SetSleepTimer(m) => if m == 0 {
            t == AppView { sleep_timer: None, sleep_volume_permille: 1000, ..s } && effs.len() == 0
        } else {
            &&& t == AppView {
                sleep_timer: Some((m * 60, vstd::math::min(30, m * 60 / 2))),
                sleep_volume_permille: 1000,
                ..s
            }
            &&& effs == seq![EffectView::SaveSleepTimer(m)]
        },
        Message::SleepTimerExpired => t == AppView { sleep_timer: None, sleep_volume_permille: 1000, ..s }
            && effs == when_engine(s, EffectView::Pause),
        Message::ToggleCrossfade => {
            let c = CrossfadeConfig { enabled: !s.crossfade.enabled, ..s.crossfade };
            t == AppView { crossfade: c, ..s } && effs == when_engine(s, EffectView::SetCrossfade(c)) + seq![EffectView::SaveConfig]
        },
        Message::SetCrossfadeDuration(ms) => {
            let c = CrossfadeConfig { duration_ms: ms, ..s.crossfade };
            t == AppView { crossfade: c, ..s } && effs == when_engine(s, EffectView::SetCrossfade(c)) + seq![EffectView::SaveConfig]
        },
        Message::SetCrossfadeCurve(id) => {
            let c = CrossfadeConfig { curve: curve_from_id(id@), ..s.crossfade };
            t == AppView { crossfade: c, ..s } && effs == when_engine(s, EffectView::SetCrossfade(c)) + seq![EffectView::SaveConfig]
        },
    }
}

/// No effects.
fn no_effects() -> (r: Vec<Effect>)
    ensures
        effects_view(r@) == Seq::<EffectView>::empty(),
{
    let r: Vec<Effect> = Vec::new();
    assert(effects_view(r@) =~= Seq::<EffectView>::empty());
    r
}

/// Exactly one effect.
fn one_effect(e: Effect) -> (r: Vec<Effect>)
    ensures
        effects_view(r@) == seq![e@],
{
    let mut r: Vec<Effect> = Vec::new();
    r.push(e);
    assert(effects_view(r@) =~= seq![e@]);
    r
}

/// Appends an effect.
fn push_effect(effects: &mut Vec<Effect>, e: Effect)
    ensures
        effects_view(final(effects)@) == effects_view(old(effects)@) + seq![e@],
{
    let ghost e0 = effects@;
    effects.push(e);
    assert(effects_view(effects@) =~= effects_view(e0) + seq![e@]);
}

/// Appends `e` when `cond` holds.
fn push_effect_if(effects: &mut Vec<Effect>, cond: bool, e: Effect)
    ensures
        effects_view(final(effects)@) == effects_view(old(effects)@) + opt_eff(cond, e@),
{
    let ghost e0 = effects@;
    if cond {
        effects.push(e);
        assert(effects_view(effects@) =~= effects_view(e0) + seq![e@]);
    } else {
        assert(effects_view(effects@) =~= effects_view(e0) + Seq::<EffectView>::empty());
    }
}

/// Appends all of `more` to `effects`.
fn append_effects(effects: &mut Vec<Effect>, more: Vec<Effect>)
    ensures
        effects_view(final(effects)@) == effects_view(old(effects)@) + effects_view(more@),
{
    let ghost e0 = effects@;
    let mut m = more;
    let ghost m0 = m@;
    effects.append(&mut m);
    assert(effects_view(effects@) =~= effects_view(e0) + effects_view(m0));
}

/// Whole seconds of a duration in milliseconds, saturating at `u32::MAX`.
fn to_whole_secs(ms: u64) -> (r: u32)
    ensures
        r == whole_secs(ms),
{
    let s = ms / 1000;
    if s > 4294967295 {
        4294967295
    } else {
        s as u32
    }
}

impl AppState {
    /// The state is consistent (its queue is well formed).
    pub open spec fn wf(&self) -> bool {
        self.queue.wf()
    }

    /// `e` when the engine is running.
    fn engine_effect(&self, e: Effect) -> (r: Vec<Effect>)
        ensures
            effects_view(r@) == when_engine(self@, e@),
    {
        if self.engine_ready {
            one_effect(e)
        } else {
            no_effects()
        }
    }

    /// Plays the first queued song.
    fn play_from_queue(&mut self) -> (r: Vec<Effect>)
        requires
            old(self).wf(),
            old(self)@.queue.upcoming.len() > 0,
        ensures
            final(self).wf(),
            final(self)@ == (AppView { queue: queue_advanced(old(self)@.queue), ..old(self)@ }),
            effects_view(r@) == when_engine(old(self)@, EffectView::Play(old(self)@.queue.upcoming[0])),
    {
        let ghost s = self@;
        let song = self.queue.next();
        assert(self.queue@ == queue_advanced(s.queue));
        match song {
            Some(song) => self.engine_effect(Effect::Play(song)),
            None => no_effects(),
        }
    }

    /// With nothing queued: the first recommendation (Smart Radio), a random
    /// library song (shuffle), or the first library song (repeat all).
    fn play_without_queue(&mut self) -> (r: Vec<Effect>)
        requires
            old(self).wf(),
            old(self)@.queue.upcoming.len() == 0,
        ensures
            final(self).wf(),
            play_next_post(old(self)@, final(self)@, effects_view(r@)),
    {
        let ghost s = self@;
        proof {
            reveal(play_next_post);
        }
        if self.shuffle_mode == ShuffleMode::SmartRadio && self.recommendations.len() > 0 {
            let rec = self.recommendations.remove(0);
            let info = rec.to_song_info();
            assert(records_view(self.recommendations@) =~= s.recommendations.drop_first());
            let r = self.engine_effect(Effect::Play(info));
            assert(self@ == AppView { recommendations: s.recommendations.drop_first(), ..s });
            return r;
        }
        if self.shuffle_mode == ShuffleMode::Shuffle && self.library.len() > 0 {
            if self.engine_ready {
                let idx = random_index(self.library.len());
                let r = one_effect(Effect::Play(self.library[idx].to_song_info()));
                assert(effects_view(r@) == seq![EffectView::Play(record_song(s.library[idx as int]))]);
                return r;
            }
            return no_effects();
        }
        if self.repeat_mode == RepeatMode::All && self.library.len() > 0 {
            return self.engine_effect(Effect::Play(self.library[0].to_song_info()));
        }
        no_effects()
    }

    /// Moves on to the next song (see `play_next_post`).
    pub fn play_next(&mut self) -> (r: Vec<Effect>)
        requires
            old(self).wf(),
        ensures
            final(self).wf(),
            play_next_post(old(self)@, final(self)@, effects_view(r@)),
    {
        proof {
            reveal(play_next_post);
        }
        if self.queue.len() > 0 {
            self.play_from_queue()
        } else {
            self.play_without_queue()
        }
    }

    /// Goes back to the previous song (see `previous_post`).
    pub fn play_previous(&mut self) -> (r: Vec<Effect>)
        requires
            old(self).wf(),
        ensures
            final(self).wf(),
            previous_post(old(self)@, final(self)@, effects_view(r@)),
    {
        let ghost s = self@;
        proof {
            reveal(previous_post);
        }
        if self.engine_ready {
            proof {
                PlaybackQueue::lemma_cursor_in_history(self.queue);
            }
            match self.queue.previous() {
                Some(prev) => {
                    let ghost i = s.queue.cursor->0;
                    assert(self.queue@ =~= QueueView { cursor: Some(i - 1), ..s.queue });
                    assert(self@ == AppView { queue: QueueView { cursor: Some(i - 1), ..s.queue }, ..s });
                    return one_effect(Effect::Play(prev));
                },
                None => {
                    assert(self.queue@ =~= s.queue);
                    assert(self@ == s);
                },
            }
        }
        no_effects()
    }

    /// The target of the loudness normalization.
    fn normalization_target(&self) -> (r: Option<String>)
        ensures
            opt_str(r) == norm_target(self@),
    {
        if self.normalization_mode == NormalizationMode::Off {
            return None;
        }
        match &self.current_song {
            Some(c) => Some(c.id.clone()),
            None => None,
        }
    }

    /// Starts playing a library song: engine, lyrics, loudness, media
    /// controls and recommendations.
    fn play_song(&self, r: &SongRecord) -> (effs: Vec<Effect>)
        ensures
            effects_view(effs@) == if self@.engine_ready {
                seq![EffectView::Play(record_song(r@)), EffectView::LoadLyrics(r@.file_path)]
                    + opt_eff(self@.normalization_mode != NormalizationMode::Off, EffectView::SetNormalization(norm_target(self@)))
                    + opt_eff(self@.mpris_ready, EffectView::UpdateMpris)
                    + opt_eff(self@.recommender_ready, EffectView::RequestRecommendations(r@.id))
            } else {
                Seq::<EffectView>::empty()
            },
    {
        if !self.engine_ready {
            return no_effects();
        }
        let mut effects = one_effect(Effect::Play(r.to_song_info()));
        push_effect(&mut effects, Effect::LoadLyrics(r.file_path.clone()));
        let norm = self.normalization_target();
        push_effect_if(&mut effects, self.normalization_mode != NormalizationMode::Off, Effect::SetNormalization(norm));
        push_effect_if(&mut effects, self.mpris_ready, Effect::UpdateMpris);
        push_effect_if(&mut effects, self.recommender_ready, Effect::RequestRecommendations(r.id.clone()));
        effects
    }

    /// The play/pause toggle.
    fn play_pause(&self) -> (r: Vec<Effect>)
        ensures
            effects_view(r@) == play_pause_effects(self@),
    {
        if self.playback_status == PlaybackStatus::Playing {
            self.engine_effect(Effect::Pause)
        } else if self.playback_status == PlaybackStatus::Paused {
            self.engine_effect(Effect::Resume)
        } else {
            no_effects()
        }
    }

    /// The position a relative seek lands on.
    fn seek_by(&self, offset_ms: i64) -> (r: u64)
        ensures
            r == seek_target(self@, offset_ms as int),
    {
        let p: i128 = self.position_ms as i128 + offset_ms as i128;
        if p < 0 {
            0
        } else if p > self.duration_ms as i128 {
            self.duration_ms
        } else {
            p as u64
        }
    }

    /// Sets the volume and tells the engine, which takes it within range.
    fn set_volume_to(&mut self, v: u32) -> (r: Vec<Effect>)
        ensures
            final(self)@ == (AppView { volume_permille: v, ..old(self)@ }),
            final(self).wf() == old(self).wf(),
            effects_view(r@) == when_engine(old(self)@, EffectView::SetVolume(clamped_volume(v as int))),
    {
        let r = self.engine_effect(Effect::SetVolume(clamp_volume(v as i64)));
        self.volume_permille = v;
        r
    }

    /// Space: play/pause.
    fn key_space(&mut self) -> (r: Vec<Effect>)
        requires
            old(self).wf(),
        ensures
            final(self).wf(),
            key_post(old(self)@, final(self)@, Key::Space, effects_view(r@)),
    {
        proof {
            reveal(key_post);
        }
        self.play_pause()
    }

    /// Left and right arrows: seek five seconds back or forward.
    fn key_seek(&mut self, forward: bool) -> (r: Vec<Effect>)
        requires
            old(self).wf(),
        ensures
            final(self).wf(),
            key_post(old(self)@, final(self)@, if forward { Key::ArrowRight } else { Key::ArrowLeft }, effects_view(r@)),
    {
        proof {
            reveal(key_post);
        }
        let p = if forward {
            self.seek_by(5000)
        } else if self.position_ms < 5000 {
            0
        } else {
            self.position_ms - 5000
        };
        self.engine_effect(Effect::Seek(p))
    }

    /// Up and down arrows: volume up or down by five hundredths.
    fn key_volume(&mut self, up: bool) -> (r: Vec<Effect>)
        requires
            old(self).wf(),
        ensures
            final(self).wf(),
            key_post(old(self)@, final(self)@, if up { Key::ArrowUp } else { Key::ArrowDown }, effects_view(r@)),
    {
        proof {
            reveal(key_post);
        }
        let v = if up {
            clamp_volume(self.volume_permille as i64 + 50)
        } else {
            clamp_volume(self.volume_permille as i64 - 50)
        };
        self.set_volume_to(v)
    }

    /// Escape: clear the search, or else go back to the player screen.
    fn key_escape(&mut self) -> (r: Vec<Effect>)
        requires
            old(self).wf(),
        ensures
            final(self).wf(),
            key_post(old(self)@, final(self)@, Key::Escape, effects_view(r@)),
    {
        let ghost s = self@;
        proof {
            reveal(key_post);
        }
        if !self.search_query.as_str().is_empty() {
            self.search_query = String::new();
            self.filtered_library = copy_records(&self.library);
            assert(self@ == AppView { search_query: Seq::empty(), filtered_library: s.library, ..s });
        } else {
            self.active_view = screen::View::NowPlaying;
            assert(self@ == AppView { active_view: screen::View::NowPlaying, ..s });
        }
        no_effects()
    }

    /// `s`: next shuffle mode.
    fn key_shuffle(&mut self) -> (r: Vec<Effect>)
        requires
            old(self).wf(),
        ensures
            final(self).wf(),
            key_post(old(self)@, final(self)@, Key::Char('s'), effects_view(r@)),
    {
        let ghost s = self@;
        proof {
            reveal(key_post);
        }
        self.shuffle_mode = self.shuffle_mode.cycled();
        assert(self@ == AppView { shuffle_mode: s.shuffle_mode.cycled_spec(), ..s });
        no_effects()
    }

    /// `r`: next repeat mode.
    fn key_repeat(&mut self) -> (r: Vec<Effect>)
        requires
            old(self).wf(),
        ensures
            final(self).wf(),
            key_post(old(self)@, final(self)@, Key::Char('r'), effects_view(r@)),
    {
        let ghost s = self@;
        proof {
            reveal(key_post);
        }
        self.repeat_mode = self.repeat_mode.cycled();
        assert(self@ == AppView { repeat_mode: s.repeat_mode.cycled_spec(), ..s });
        no_effects()
    }

    /// `l`: show or hide the lyrics.
    fn key_lyrics(&mut self) -> (r: Vec<Effect>)
        requires
            old(self).wf(),
        ensures
            final(self).wf(),
            key_post(old(self)@, final(self)@, Key::Char('l'), effects_view(r@)),
    {
        let ghost s = self@;
        proof {
            reveal(key_post);
        }
        self.show_lyrics = !self.show_lyrics;
        assert(self@ == AppView { show_lyrics: !s.show_lyrics, ..s });
        no_effects()
    }

    /// `n` and `p`: next and previous song; other letters do nothing.
    fn key_other(&mut self, c: char) -> (r: Vec<Effect>)
        requires
            old(self).wf(),
            c != 's' && c != 'r' && c != 'l',
        ensures
            final(self).wf(),
            key_post(old(self)@, final(self)@, Key::Char(c), effects_view(r@)),
    {
        proof {
            reveal(key_post);
        }
        if c == 'n' {
            self.play_next()
        } else if c == 'p' {
            self.play_previous()
        } else {
            no_effects()
        }
    }

    /// Handles a key press (see `key_post`).
    pub fn handle_key(&mut self, key: Key) -> (r: Vec<Effect>)
        requires
            old(self).wf(),
        ensures
            final(self).wf(),
            key_post(old(self)@, final(self)@, key, effects_view(r@)),
    {
        match key {
            Key::Space => self.key_space(),
            Key::ArrowLeft => self.key_seek(false),
            Key::ArrowRight => self.key_seek(true),
            Key::ArrowUp => self.key_volume(true),
            Key::ArrowDown => self.key_volume(false),
            Key::Escape => self.key_escape(),
            Key::Char(c) => {
                if c == 's' {
                    self.key_shuffle()
                } else if c == 'r' {
                    self.key_repeat()
                } else if c == 'l' {
                    self.key_lyrics()
                } else {
                    self.key_other(c)
                }
            },
        }
    }

    /// Handles a media-control command (see `mpris_post`).
    pub fn handle_mpris(&mut self, cmd: MprisCommand) -> (r: Vec<Effect>)
        requires
            old(self).wf(),
        ensures
            final(self).wf(),
            mpris_post(old(self)@, final(self)@, cmd, effects_view(r@)),
    {
        proof {
            reveal(mpris_post);
        }
        match cmd {
            MprisCommand::PlayPause => self.play_pause(),
            MprisCommand::Next => self.play_next(),
            MprisCommand::Previous => self.play_previous(),
            MprisCommand::Stop => self.engine_effect(Effect::Stop),
            MprisCommand::Seek(us) => {
                let p = self.seek_by(us / 1000);
                self.engine_effect(Effect::Seek(p))
            },
            MprisCommand::SetVolume(v) => {
                let c = clamp_volume(v);
                self.set_volume_to(c)
            },
        }
    }
}

/// Exactly the effects of `opt_eff(cond, e)`.
fn opt_effect(cond: bool, e: Effect) -> (r: Vec<Effect>)
    ensures
        effects_view(r@) == opt_eff(cond, e@),
{
    if cond {
        one_effect(e)
    } else {
        no_effects()
    }
}

impl AppState {
    /// A song started: show it, and either tint the background with its
    /// cover or reset the tint and hint the engine at the next song.
    fn on_playing(&mut self, song: SongInfo) -> (r: Vec<Effect>)
        requires
            old(self).wf(),
        ensures
            final(self).wf(),
            engine_event_post(old(self)@, final(self)@, PlaybackEvent::Playing(song), effects_view(r@)),
    {
        let ghost s = self@;
        let ghost sv = song@;
        proof {
            reveal(engine_event_post);
        }
        let effs = match &song.cover_art {
            Some(b) => one_effect(Effect::ExtractArtColor(copy_bytes(b))),
            None => {
                let mut e = one_effect(Effect::ResetArtTint);
                if self.engine_ready {
                    match self.queue.peek_next() {
                        Some(n) => push_effect(&mut e, Effect::PreloadNext(n)),
                        None => {},
                    }
                }
                assert(effects_view(e@) =~= seq![EffectView::ResetArtTint] + opt_eff(
                    s.engine_ready && s.queue.upcoming.len() > 0,
                    EffectView::PreloadNext(s.queue.upcoming[0]),
                ));
                e
            },
        };
        self.playback_status = PlaybackStatus::Playing;
        self.duration_ms = song.duration_ms;
        self.position_ms = 0;
        self.current_song = Some(song);
        assert(self@ == AppView {
            playback_status: PlaybackStatus::Playing,
            duration_ms: sv.duration_ms,
            position_ms: 0,
            current_song: Some(sv),
            ..s
        });
        effs
    }

    /// Playback paused, resumed or buffering: the status follows.
    fn on_status_event(&mut self, ev: PlaybackEvent) -> (r: Vec<Effect>)
        requires
            old(self).wf(),
            ev is Resumed || ev is BufferingStarted || ev is BufferingComplete,
        ensures
            final(self).wf(),
            engine_event_post(old(self)@, final(self)@, ev, effects_view(r@)),
    {
        let ghost s = self@;
        proof {
            reveal(engine_event_post);
        }
        let st = match ev {
            PlaybackEvent::BufferingStarted => PlaybackStatus::Buffering,
            _ => PlaybackStatus::Playing,
        };
        self.playback_status = st;
        assert(self@ == AppView { playback_status: st, ..s });
        no_effects()
    }

    /// Playback paused at a position.
    fn on_paused(&mut self, position_ms: u64) -> (r: Vec<Effect>)
        requires
            old(self).wf(),
        ensures
            final(self).wf(),
            engine_event_post(old(self)@, final(self)@, PlaybackEvent::Paused { position_ms }, effects_view(r@)),
    {
        let ghost s = self@;
        proof {
            reveal(engine_event_post);
        }
        self.playback_status = PlaybackStatus::Paused;
        self.position_ms = position_ms;
        assert(self@ == AppView { playback_status: PlaybackStatus::Paused, position_ms, ..s });
        no_effects()
    }

    /// Playback stopped: no current song any more.
    fn on_stopped(&mut self) -> (r: Vec<Effect>)
        requires
            old(self).wf(),
        ensures
            final(self).wf(),
            engine_event_post(old(self)@, final(self)@, PlaybackEvent::Stopped, effects_view(r@)),
    {
        let ghost s = self@;
        proof {
            reveal(engine_event_post);
        }
        self.playback_status = PlaybackStatus::Stopped;
        self.current_song = None;
        self.position_ms = 0;
        assert(self@ == AppView {
            playback_status: PlaybackStatus::Stopped,
            current_song: None,
            position_ms: 0,
            ..s
        });
        no_effects()
    }

    /// A position report.
    fn on_position(&mut self, position_ms: u64, listened_secs: u32) -> (r: Vec<Effect>)
        requires
            old(self).wf(),
        ensures
            final(self).wf(),
            engine_event_post(
                old(self)@,
                final(self)@,
                PlaybackEvent::PositionUpdate { position_ms, listened_secs },
                effects_view(r@),
            ),
    {
        let ghost s = self@;
        proof {
            reveal(engine_event_post);
        }
        self.position_ms = position_ms;
        self.listened_secs = listened_secs;
        assert(self@ == AppView { position_ms, listened_secs, ..s });
        no_effects()
    }

    /// A seek completed.
    fn on_seeked(&mut self, position_ms: u64) -> (r: Vec<Effect>)
        requires
            old(self).wf(),
        ensures
            final(self).wf(),
            engine_event_post(old(self)@, final(self)@, PlaybackEvent::Seeked { position_ms }, effects_view(r@)),
    {
        let ghost s = self@;
        proof {
            reveal(engine_event_post);
        }
        self.position_ms = position_ms;
        assert(self@ == AppView { position_ms, ..s });
        no_effects()
    }

    /// The engine changed the volume.
    fn on_volume_changed(&mut self, v: u32) -> (r: Vec<Effect>)
        requires
            old(self).wf(),
        ensures
            final(self).wf(),
            engine_event_post(old(self)@, final(self)@, PlaybackEvent::VolumeChanged(v), effects_view(r@)),
    {
        let ghost s = self@;
        proof {
            reveal(engine_event_post);
        }
        self.volume_permille = v;
        assert(self@ == AppView { volume_permille: v, ..s });
        no_effects()
    }

    /// A song ended: log the listen, then repeat it or move on.
    fn on_song_ended(&mut self, song_id: String, listened_secs: u32, duration_ms: u64) -> (r: Vec<Effect>)
        requires
            old(self).wf(),
        ensures
            final(self).wf(),
            engine_event_post(
                old(self)@,
                final(self)@,
                PlaybackEvent::SongEnded { song_id, listened_secs, duration_ms },
                effects_view(r@),
            ),
    {
        let ghost s = self@;
        let ghost id = song_id@;
        proof {
            reveal(engine_event_post);
        }
        let mut effs = opt_effect(
            self.recommender_ready,
            Effect::LogListen { song_id, listened_secs, duration_secs: to_whole_secs(duration_ms) },
        );
        if self.repeat_mode == RepeatMode::One {
            let more = match &self.current_song {
                Some(c) => self.engine_effect(Effect::Play(c.duplicate())),
                None => no_effects(),
            };
            append_effects(&mut effs, more);
        } else {
            let rest = self.play_next();
            let ghost rv = effects_view(rest@);
            append_effects(&mut effs, rest);
            assert(play_next_post(s, self@, rv));
        }
        effs
    }

    /// Handles an event from the playback engine (see `engine_event_post`).
    pub fn handle_engine_event(&mut self, ev: PlaybackEvent) -> (r: Vec<Effect>)
        requires
            old(self).wf(),
        ensures
            final(self).wf(),
            engine_event_post(old(self)@, final(self)@, ev, effects_view(r@)),
    {
        match ev {
            PlaybackEvent::Playing(song) => self.on_playing(song),
            PlaybackEvent::Paused { position_ms } => self.on_paused(position_ms),
            PlaybackEvent::Resumed => self.on_status_event(PlaybackEvent::Resumed),
            PlaybackEvent::Stopped => self.on_stopped(),
            PlaybackEvent::Seeked { position_ms } => self.on_seeked(position_ms),
            PlaybackEvent::PositionUpdate { position_ms, listened_secs } => self.on_position(position_ms, listened_secs),
            PlaybackEvent::SongEnded { song_id, listened_secs, duration_ms } => self.on_song_ended(
                song_id,
                listened_secs,
                duration_ms,
            ),
            PlaybackEvent::BufferingStarted => self.on_status_event(PlaybackEvent::BufferingStarted),
            PlaybackEvent::BufferingComplete => self.on_status_event(PlaybackEvent::BufferingComplete),
            PlaybackEvent::Error(_) => {
                proof {
                    reveal(engine_event_post);
                }
                no_effects()
            },
            PlaybackEvent::VolumeChanged(v) => self.on_volume_changed(v),
        }
    }

    /// What a tick of the playback clock does once the sleep timer (if any)
    /// has reported `status`: fade the volume, or ask for the pause, and
    /// refresh the media controls.
    pub fn tick_with(&mut self, status: Option<TimerStatus>) -> (r: Vec<Effect>)
        ensures
            final(self).wf() == old(self).wf(),
            tick_post(old(self)@, final(self)@, status, effects_view(r@)),
    {
        let ghost s = self@;
        match status {
            Some(TimerStatus::Fading { volume_permille, .. }) => {
                let f = #[verifier::truncate] (volume_permille as u32);
                self.sleep_volume_permille = f;
                let vol = self.volume_permille as u64;
                let fu = f as u64;
                assert(vol * fu <= 0xffff_ffff * 0xffff_ffffu64) by (nonlinear_arith)
                    requires
                        vol <= 0xffff_ffff,
                        fu <= 0xffff_ffff,
                ;
                let v = vol * fu / 1000;
                let c: u32 = if v > 1000 { 1000 } else { v as u32 };
                let mut effs = self.engine_effect(Effect::SetVolume(c));
                let mpris = opt_effect(self.mpris_ready, Effect::UpdateMpris);
                append_effects(&mut effs, mpris);
                assert(self@ == AppView { sleep_volume_permille: f, ..s });
                effs
            },
            Some(TimerStatus::Expired) => {
                let mut effs = opt_effect(self.mpris_ready, Effect::UpdateMpris);
                push_effect(&mut effs, Effect::SleepTimerExpired);
                effs
            },
            _ => opt_effect(self.mpris_ready, Effect::UpdateMpris),
        }
    }
}

impl AppState {
    /// Plays a library song.
    fn on_play_song(&mut self, rec: SongRecord) -> (r: Vec<Effect>)
        requires
            old(self).wf(),
        ensures
            final(self).wf(),
            update_post(old(self)@, final(self)@, Message::PlaySong(rec), effects_view(r@)),
    {
        let ghost s = self@;
        proof {
            reveal(update_post);
        }
        self.play_song(&rec)
    }

    /// Pauses.
    fn on_pause(&mut self) -> (r: Vec<Effect>)
        requires
            old(self).wf(),
        ensures
            final(self).wf(),
            update_post(old(self)@, final(self)@, Message::Pause, effects_view(r@)),
    {
        let ghost s = self@;
        proof {
            reveal(update_post);
        }
        self.engine_effect(Effect::Pause)
    }

    /// Resumes.
    fn on_resume(&mut self) -> (r: Vec<Effect>)
        requires
            old(self).wf(),
        ensures
            final(self).wf(),
            update_post(old(self)@, final(self)@, Message::Resume, effects_view(r@)),
    {
        let ghost s = self@;
        proof {
            reveal(update_post);
        }
        self.engine_effect(Effect::Resume)
    }

    /// Moves on to the next song.
    fn on_next(&mut self) -> (r: Vec<Effect>)
        requires
            old(self).wf(),
        ensures
            final(self).wf(),
            update_post(old(self)@, final(self)@, Message::Next, effects_view(r@)),
    {
        let ghost s = self@;
        proof {
            reveal(update_post);
        }
        self.play_next()
    }

    /// Goes back to the previous song.
    fn on_previous(&mut self) -> (r: Vec<Effect>)
        requires
            old(self).wf(),
        ensures
            final(self).wf(),
            update_post(old(self)@, final(self)@, Message::Previous, effects_view(r@)),
    {
        let ghost s = self@;
        proof {
            reveal(update_post);
        }
        self.play_previous()
    }

    /// Seeks to a position.
    fn on_seek(&mut self, p: u64) -> (r: Vec<Effect>)
        requires
            old(self).wf(),
        ensures
            final(self).wf(),
            update_post(old(self)@, final(self)@, Message::Seek(p), effects_view(r@)),
    {
        let ghost s = self@;
        proof {
            reveal(update_post);
        }
        self.engine_effect(Effect::Seek(p))
    }

    /// Sets the volume and saves the settings.
    fn on_set_volume(&mut self, v: u32) -> (r: Vec<Effect>)
        requires
            old(self).wf(),
        ensures
            final(self).wf(),
            update_post(old(self)@, final(self)@, Message::SetVolume(v), effects_view(r@)),
    {
        let ghost s = self@;
        proof {
            reveal(update_post);
        }
        let mut r = self.set_volume_to(v);
        push_effect(&mut r, Effect::SaveConfig);
        r
    }

    /// Mutes or unmutes.
    fn on_toggle_mute(&mut self) -> (r: Vec<Effect>)
        requires
            old(self).wf(),
        ensures
            final(self).wf(),
            update_post(old(self)@, final(self)@, Message::ToggleMute, effects_view(r@)),
    {
        let ghost s = self@;
        proof {
            reveal(update_post);
        }
        self.engine_effect(Effect::ToggleMute)
    }

    /// A tick of the playback clock.
    fn on_tick(&mut self) -> (r: Vec<Effect>)
        requires
            old(self).wf(),
        ensures
            final(self).wf(),
            update_post(old(self)@, final(self)@, Message::PlaybackTick, effects_view(r@)),
    {
        let ghost s = self@;
        proof {
            reveal(update_post);
        }
        let status = match &self.sleep_timer {
            Some(t) => Some(t.tick()),
            None => None,
        };
        let r = self.tick_with(status);
        proof {
            if let Some(t) = old(self).sleep_timer {
                let e = choose|e: int| 0 <= e <= u128::MAX && status == Some(#[trigger] timer_status(t.total(), t.fade(), e));
                assert(tick_post(s, self@, Some(timer_status(t.total(), t.fade(), e)), effects_view(r@)));
            }
        }
        r
    }

    /// An event from the engine.
    fn on_engine(&mut self, ev: PlaybackEvent) -> (r: Vec<Effect>)
        requires
            old(self).wf(),
        ensures
            final(self).wf(),
            update_post(old(self)@, final(self)@, Message::Engine(ev), effects_view(r@)),
    {
        let ghost s = self@;
        proof {
            reveal(update_post);
        }
        self.handle_engine_event(ev)
    }

    /// Switches screens; the statistics load on their first visit.
    fn on_navigate(&mut self, v: screen::View) -> (r: Vec<Effect>)
        requires
            old(self).wf(),
        ensures
            final(self).wf(),
            update_post(old(self)@, final(self)@, Message::NavigateTo(v), effects_view(r@)),
    {
        let ghost s = self@;
        proof {
            reveal(update_post);
        }
        let due = v == screen::View::Stats && !self.has_stats && !self.stats_loading && self.recommender_ready;
        self.active_view = v;
        if due {
            self.stats_loading = true;
        }
        assert(self@ == AppView {
            active_view: v,
            stats_loading: if stats_due(s, v) { true } else { s.stats_loading },
            ..s
        });
        opt_effect(due, Effect::LoadStats)
    }

    /// A new search query filters the library.
    fn on_search(&mut self, q: String) -> (r: Vec<Effect>)
        requires
            old(self).wf(),
        ensures
            final(self).wf(),
            update_post(old(self)@, final(self)@, Message::SearchChanged(q), effects_view(r@)),
            q@.len() == 0 ==> final(self)@.filtered_library == old(self)@.library,
    {
        let ghost s = self@;
        proof {
            reveal(update_post);
        }
        let f = search_library(&self.library, q.as_str());
        let ghost qv = q@;
        self.filtered_library = f;
        self.search_query = q;
        assert(self@ == AppView { search_query: qv, filtered_library: filtered_for(s.library, qv), ..s });
        no_effects()
    }

    /// Grid or list.
    fn on_toggle_library_view(&mut self) -> (r: Vec<Effect>)
        requires
            old(self).wf(),
        ensures
            final(self).wf(),
            update_post(old(self)@, final(self)@, Message::ToggleLibraryView, effects_view(r@)),
    {
        let ghost s = self@;
        proof {
            reveal(update_post);
        }
        self.library_view_mode = self.library_view_mode.toggled();
        one_effect(Effect::SaveConfig)
    }

    /// Scans the music folder.
    fn on_scan(&mut self) -> (r: Vec<Effect>)
        requires
            old(self).wf(),
        ensures
            final(self).wf(),
            update_post(old(self)@, final(self)@, Message::ScanLibrary, effects_view(r@)),
    {
        let ghost s = self@;
        proof {
            reveal(update_post);
        }
        if self.recommender_ready {
            match &self.music_folder {
                Some(f) => {
                    let folder = f.clone();
                    self.is_indexing = true;
                    self.index_progress = (0, 0);
                    assert(self@ == AppView { is_indexing: true, index_progress: (0, 0), ..s });
                    return one_effect(Effect::StartScan(folder));
                },
                None => {},
            }
        }
        no_effects()
    }

    /// Indexing progress.
    fn on_index_progress(&mut self, done: usize, total: usize) -> (r: Vec<Effect>)
        requires
            old(self).wf(),
        ensures
            final(self).wf(),
            update_post(old(self)@, final(self)@, Message::IndexProgress(done, total), effects_view(r@)),
    {
        let ghost s = self@;
        proof {
            reveal(update_post);
        }
        self.index_progress = (done, total);
        assert(self@ == AppView { index_progress: (done, total), ..s });
        no_effects()
    }

    /// Indexing finished with these songs.
    fn on_index_complete(&mut self, recs: Vec<SongRecord>) -> (r: Vec<Effect>)
        requires
            old(self).wf(),
        ensures
            final(self).wf(),
            update_post(old(self)@, final(self)@, Message::IndexComplete(recs), effects_view(r@)),
    {
        let ghost s = self@;
        proof {
            reveal(update_post);
        }
        let ghost rv = records_view(recs@);
        self.is_indexing = false;
        self.library = copy_records(&recs);
        self.filtered_library = recs;
        assert(self@ == AppView { is_indexing: false, library: rv, filtered_library: rv, ..s });
        no_effects()
    }

    /// New recommendations.
    fn on_recommendations(&mut self, recs: Vec<SongRecord>) -> (r: Vec<Effect>)
        requires
            old(self).wf(),
        ensures
            final(self).wf(),
            update_post(old(self)@, final(self)@, Message::RecommendationsUpdated(recs), effects_view(r@)),
    {
        let ghost s = self@;
        proof {
            reveal(update_post);
        }
        let ghost rv = records_view(recs@);
        self.recommendations = recs;
        assert(self@ == AppView { recommendations: rv, ..s });
        no_effects()
    }

    /// Queues a song at the end.
    fn on_add_to_queue(&mut self, rec: SongRecord) -> (r: Vec<Effect>)
        requires
            old(self).wf(),
        ensures
            final(self).wf(),
            update_post(old(self)@, final(self)@, Message::AddToQueue(rec), effects_view(r@)),
    {
        let ghost s = self@;
        proof {
            reveal(update_post);
        }
        self.queue.push_back(rec.to_song_info());
        assert(self.queue@ =~= QueueView { upcoming: s.queue.upcoming.push(record_song(rec@)), ..s.queue });
        no_effects()
    }

    /// Removes a queued song.
    fn on_remove_from_queue(&mut self, i: usize) -> (r: Vec<Effect>)
        requires
            old(self).wf(),
        ensures
            final(self).wf(),
            update_post(old(self)@, final(self)@, Message::RemoveFromQueue(i), effects_view(r@)),
    {
        let ghost s = self@;
        proof {
            reveal(update_post);
        }
        let _ = self.queue.remove_at(i);
        assert(self.queue@ =~= QueueView {
            upcoming: if i < s.queue.upcoming.len() { s.queue.upcoming.remove(i as int) } else { s.queue.upcoming },
            ..s.queue
        });
        no_effects()
    }

    /// Next shuffle mode; entering shuffle shuffles the queue.
    fn on_toggle_shuffle(&mut self) -> (r: Vec<Effect>)
        requires
            old(self).wf(),
        ensures
            final(self).wf(),
            update_post(old(self)@, final(self)@, Message::ToggleShuffle, effects_view(r@)),
    {
        let ghost s = self@;
        proof {
            reveal(update_post);
        }
        self.shuffle_mode = self.shuffle_mode.cycled();
        if self.shuffle_mode == ShuffleMode::Shuffle {
            self.queue.shuffle();
        } else {
            assert(self.queue@ =~= s.queue);
        }
        no_effects()
    }

    /// Next repeat mode.
    fn on_toggle_repeat(&mut self) -> (r: Vec<Effect>)
        requires
            old(self).wf(),
        ensures
            final(self).wf(),
            update_post(old(self)@, final(self)@, Message::ToggleRepeat, effects_view(r@)),
    {
        let ghost s = self@;
        proof {
            reveal(update_post);
        }
        self.repeat_mode = self.repeat_mode.cycled();
        assert(self@ == AppView { repeat_mode: s.repeat_mode.cycled_spec(), ..s });
        no_effects()
    }

    /// Likes or unlikes the current song.
    fn on_toggle_like(&mut self) -> (r: Vec<Effect>)
        requires
            old(self).wf(),
        ensures
            final(self).wf(),
            update_post(old(self)@, final(self)@, Message::ToggleLike, effects_view(r@)),
    {
        let ghost s = self@;
        proof {
            reveal(update_post);
        }
        if self.current_song.is_some() {
            self.is_liked = !self.is_liked;
        }
        assert(self@ == AppView { is_liked: if s.current_song is Some { !s.is_liked } else { s.is_liked }, ..s });
        no_effects()
    }

    /// Asks the user for a music folder.
    fn on_pick_folder(&mut self) -> (r: Vec<Effect>)
        requires
            old(self).wf(),
        ensures
            final(self).wf(),
            update_post(old(self)@, final(self)@, Message::PickFolder, effects_view(r@)),
    {
        let ghost s = self@;
        proof {
            reveal(update_post);
        }
        one_effect(Effect::PickFolder)
    }

    /// A new music folder.
    fn on_folder_changed(&mut self, p: String) -> (r: Vec<Effect>)
        requires
            old(self).wf(),
        ensures
            final(self).wf(),
            update_post(old(self)@, final(self)@, Message::MusicFolderChanged(p), effects_view(r@)),
    {
        let ghost s = self@;
        proof {
            reveal(update_post);
        }
        let ghost pv = p@;
        self.music_folder = Some(p);
        assert(self@ == AppView { music_folder: Some(pv), ..s });
        one_effect(Effect::SaveConfig)
    }

    /// A new color palette.
    fn on_set_palette(&mut self, id: String) -> (r: Vec<Effect>)
        requires
            old(self).wf(),
        ensures
            final(self).wf(),
            update_post(old(self)@, final(self)@, Message::SetPalette(id), effects_view(r@)),
    {
        let ghost s = self@;
        proof {
            reveal(update_post);
        }
        let ghost iv = id@;
        let mut r = opt_effect(self.current_song.is_none(), Effect::ResetArtTint);
        push_effect(&mut r, Effect::SaveConfig);
        self.palette_id = id;
        assert(self@ == AppView { palette_id: iv, ..s });
        r
    }

    /// A new font mode.
    fn on_set_font_mode(&mut self, id: String) -> (r: Vec<Effect>)
        requires
            old(self).wf(),
        ensures
            final(self).wf(),
            update_post(old(self)@, final(self)@, Message::SetFontMode(id), effects_view(r@)),
    {
        let ghost s = self@;
        proof {
            reveal(update_post);
        }
        let ghost iv = id@;
        self.font_mode_id = id;
        assert(self@ == AppView { font_mode_id: iv, ..s });
        one_effect(Effect::SaveConfig)
    }

    /// Looks for a newer release.
    fn on_check_for_update(&mut self) -> (r: Vec<Effect>)
        requires
            old(self).wf(),
        ensures
            final(self).wf(),
            update_post(old(self)@, final(self)@, Message::CheckForUpdate, effects_view(r@)),
    {
        let ghost s = self@;
        proof {
            reveal(update_post);
        }
        self.update_status = UpdateStatus::Checking;
        assert(self@ == AppView { update_status: UpdateView::Checking, ..s });
        one_effect(Effect::CheckForUpdate)
    }

    /// A newer release exists.
    fn on_update_available(&mut self, version: String, url: String) -> (r: Vec<Effect>)
        requires
            old(self).wf(),
        ensures
            final(self).wf(),
            update_post(old(self)@, final(self)@, Message::UpdateAvailable(version, url), effects_view(r@)),
    {
        let ghost s = self@;
        proof {
            reveal(update_post);
        }
        let ghost u = UpdateView::Available { version: version@, url: url@ };
        self.update_status = UpdateStatus::Available { version, url };
        assert(self@ == AppView { update_status: u, ..s });
        no_effects()
    }

    /// Downloads the newer release.
    fn on_download_update(&mut self, url: String) -> (r: Vec<Effect>)
        requires
            old(self).wf(),
        ensures
            final(self).wf(),
            update_post(old(self)@, final(self)@, Message::DownloadUpdate(url), effects_view(r@)),
    {
        let ghost s = self@;
        proof {
            reveal(update_post);
        }
        self.update_status = UpdateStatus::Downloading;
        assert(self@ == AppView { update_status: UpdateView::Downloading, ..s });
        one_effect(Effect::DownloadUpdate(url))
    }

    /// The release is installed.
    fn on_update_downloaded(&mut self) -> (r: Vec<Effect>)
        requires
            old(self).wf(),
        ensures
            final(self).wf(),
            update_post(old(self)@, final(self)@, Message::UpdateDownloaded, effects_view(r@)),
    {
        let ghost s = self@;
        proof {
            reveal(update_post);
        }
        self.update_status = UpdateStatus::Ready;
        assert(self@ == AppView { update_status: UpdateView::Ready, ..s });
        no_effects()
    }

    /// The update flow failed (or found nothing newer).
    fn on_update_error(&mut self, m: String) -> (r: Vec<Effect>)
        requires
            old(self).wf(),
        ensures
            final(self).wf(),
            update_post(old(self)@, final(self)@, Message::UpdateError(m), effects_view(r@)),
    {
        let ghost s = self@;
        proof {
            reveal(update_post);
        }
        let ghost mv = m@;
        self.update_status = UpdateStatus::Error(m);
        assert(self@ == AppView { update_status: UpdateView::Error(mv), ..s });
        no_effects()
    }

    /// The window changed size.
    fn on_window_resized(&mut self, w: u32, height: u32) -> (r: Vec<Effect>)
        requires
            old(self).wf(),
        ensures
            final(self).wf(),
            update_post(old(self)@, final(self)@, Message::WindowResized(w, height), effects_view(r@)),
    {
        let ghost s = self@;
        proof {
            reveal(update_post);
        }
        self.window_size = (w, height);
        assert(self@ == AppView { window_size: (w, height), ..s });
        no_effects()
    }

    /// The recommender is up: load the library.
    fn on_recommender_ready(&mut self) -> (r: Vec<Effect>)
        requires
            old(self).wf(),
        ensures
            final(self).wf(),
            update_post(old(self)@, final(self)@, Message::RecommenderReady, effects_view(r@)),
    {
        let ghost s = self@;
        proof {
            reveal(update_post);
        }
        self.recommender_ready = true;
        assert(self@ == AppView { recommender_ready: true, ..s });
        one_effect(Effect::LoadAllSongs)
    }

    /// The playback engine is up.
    fn on_engine_ready(&mut self) -> (r: Vec<Effect>)
        requires
            old(self).wf(),
        ensures
            final(self).wf(),
            update_post(old(self)@, final(self)@, Message::PlaybackEngineReady, effects_view(r@)),
    {
        let ghost s = self@;
        proof {
            reveal(update_post);
        }
        self.engine_ready = true;
        assert(self@ == AppView { engine_ready: true, ..s });
        no_effects()
    }

    /// The media-control service is up.
    fn on_mpris_ready(&mut self) -> (r: Vec<Effect>)
        requires
            old(self).wf(),
        ensures
            final(self).wf(),
            update_post(old(self)@, final(self)@, Message::MprisReady, effects_view(r@)),
    {
        let ghost s = self@;
        proof {
            reveal(update_post);
        }
        self.mpris_ready = true;
        assert(self@ == AppView { mpris_ready: true, ..s });
        no_effects()
    }

    /// The whole library was loaded.
    fn on_load_all_songs(&mut self, recs: Vec<SongRecord>) -> (r: Vec<Effect>)
        requires
            old(self).wf(),
        ensures
            final(self).wf(),
            update_post(old(self)@, final(self)@, Message::LoadAllSongs(recs), effects_view(r@)),
    {
        let ghost s = self@;
        proof {
            reveal(update_post);
        }
        let ghost rv = records_view(recs@);
        self.library = copy_records(&recs);
        self.filtered_library = recs;
        assert(self@ == AppView { library: rv, filtered_library: rv, ..s });
        no_effects()
    }

    /// A key press.
    fn on_key(&mut self, k: Key) -> (r: Vec<Effect>)
        requires
            old(self).wf(),
        ensures
            final(self).wf(),
            update_post(old(self)@, final(self)@, Message::KeyPressed(k), effects_view(r@)),
    {
        let ghost s = self@;
        proof {
            reveal(update_post);
        }
        self.handle_key(k)
    }

    /// Picks an equalizer preset; any preset but flat turns the equalizer on.
    fn on_set_eq_preset(&mut self, id: String) -> (r: Vec<Effect>)
        requires
            old(self).wf(),
        ensures
            final(self).wf(),
            update_post(old(self)@, final(self)@, Message::SetEQPreset(id), effects_view(r@)),
    {
        let ghost s = self@;
        proof {
            reveal(update_post);
        }
        let ghost iv = id@;
        let on = preset_by_id(id.as_str()) != 0;
        self.eq_preset_id = id;
        self.eq_enabled = on;
        assert(self@ == AppView { eq_preset_id: iv, eq_enabled: on, ..s });
        let mut r = self.engine_effect(Effect::SetEq(on));
        push_effect(&mut r, Effect::SaveConfig);
        r
    }

    /// A band was moved: the preset becomes custom.
    fn on_set_eq_band(&mut self, i: usize) -> (r: Vec<Effect>)
        requires
            old(self).wf(),
        ensures
            final(self).wf(),
            update_post(old(self)@, final(self)@, Message::SetEQBand(i), effects_view(r@)),
    {
        let ghost s = self@;
        proof {
            reveal(update_post);
        }
        if i < 10 {
            self.eq_preset_id = "custom".to_string();
            assert(self@ == AppView { eq_preset_id: "custom"@, ..s });
            self.engine_effect(Effect::SetEq(self.eq_enabled))
        } else {
            no_effects()
        }
    }

    /// Turns the equalizer on or off.
    fn on_toggle_eq(&mut self) -> (r: Vec<Effect>)
        requires
            old(self).wf(),
        ensures
            final(self).wf(),
            update_post(old(self)@, final(self)@, Message::ToggleEQ, effects_view(r@)),
    {
        let ghost s = self@;
        proof {
            reveal(update_post);
        }
        self.eq_enabled = !self.eq_enabled;
        assert(self@ == AppView { eq_enabled: !s.eq_enabled, ..s });
        let mut r = self.engine_effect(Effect::SetEq(self.eq_enabled));
        push_effect(&mut r, Effect::SaveConfig);
        r
    }

    /// A media-control command.
    fn on_mpris(&mut self, c: MprisCommand) -> (r: Vec<Effect>)
        requires
            old(self).wf(),
        ensures
            final(self).wf(),
            update_post(old(self)@, final(self)@, Message::MprisIncoming(c), effects_view(r@)),
    {
        let ghost s = self@;
        proof {
            reveal(update_post);
        }
        self.handle_mpris(c)
    }

    /// Lyrics for the current song.
    fn on_lyrics_loaded(&mut self, l: Lyrics) -> (r: Vec<Effect>)
        requires
            old(self).wf(),
        ensures
            final(self).wf(),
            update_post(old(self)@, final(self)@, Message::LyricsLoaded(l), effects_view(r@)),
    {
        let ghost s = self@;
        proof {
            reveal(update_post);
        }
        let ghost lv = l@;
        self.lyrics = l;
        assert(self@ == AppView { lyrics: lv, ..s });
        no_effects()
    }

    /// Shows or hides the lyrics.
    fn on_toggle_lyrics(&mut self) -> (r: Vec<Effect>)
        requires
            old(self).wf(),
        ensures
            final(self).wf(),
            update_post(old(self)@, final(self)@, Message::ToggleLyrics, effects_view(r@)),
    {
        let ghost s = self@;
        proof {
            reveal(update_post);
        }
        self.show_lyrics = !self.show_lyrics;
        assert(self@ == AppView { show_lyrics: !s.show_lyrics, ..s });
        no_effects()
    }

    /// A new loudness normalization mode.
    fn on_set_normalization(&mut self, m: NormalizationMode) -> (r: Vec<Effect>)
        requires
            old(self).wf(),
        ensures
            final(self).wf(),
            update_post(old(self)@, final(self)@, Message::SetNormalizationMode(m), effects_view(r@)),
    {
        let ghost s = self@;
        proof {
            reveal(update_post);
        }
        self.normalization_mode = m;
        assert(self@ == AppView { normalization_mode: m, ..s });
        let target = self.normalization_target();
        let mut r = self.engine_effect(Effect::SetNormalization(target));
        push_effect(&mut r, Effect::SaveConfig);
        r
    }

    /// The statistics arrived.
    fn on_stats_loaded(&mut self) -> (r: Vec<Effect>)
        requires
            old(self).wf(),
        ensures
            final(self).wf(),
            update_post(old(self)@, final(self)@, Message::StatsLoaded, effects_view(r@)),
    {
        let ghost s = self@;
        proof {
            reveal(update_post);
        }
        self.has_stats = true;
        self.stats_loading = false;
        assert(self@ == AppView { has_stats: true, stats_loading: false, ..s });
        no_effects()
    }

    /// Reloads the statistics.
    fn on_refresh_stats(&mut self) -> (r: Vec<Effect>)
        requires
            old(self).wf(),
        ensures
            final(self).wf(),
            update_post(old(self)@, final(self)@, Message::RefreshStats, effects_view(r@)),
    {
        let ghost s = self@;
        proof {
            reveal(update_post);
        }
        if self.recommender_ready {
            self.stats_loading = true;
            assert(self@ == AppView { stats_loading: true, ..s });
            one_effect(Effect::LoadStats)
        } else {
            no_effects()
        }
    }

    /// Starts (or, with zero minutes, cancels) the sleep timer.
    fn on_set_sleep_timer(&mut self, m: u64) -> (r: Vec<Effect>)
        requires
            old(self).wf(),
            m * 60 <= u64::MAX,
        ensures
            final(self).wf(),
            update_post(old(self)@, final(self)@, Message::SetSleepTimer(m), effects_view(r@)),
    {
        let ghost s = self@;
        proof {
            reveal(update_post);
        }
        self.sleep_volume_permille = 1000;
        if m == 0 {
            self.sleep_timer = None;
            assert(self@ == AppView { sleep_timer: None, sleep_volume_permille: 1000, ..s });
            no_effects()
        } else {
            self.sleep_timer = Some(SleepTimer::new(m));
            assert(self@ == AppView {
                sleep_timer: Some((m * 60, vstd::math::min(30, m * 60 / 2))),
                sleep_volume_permille: 1000,
                ..s
            });
            one_effect(Effect::SaveSleepTimer(m))
        }
    }

    /// The sleep timer ran out: pause.
    fn on_sleep_timer_expired(&mut self) -> (r: Vec<Effect>)
        requires
            old(self).wf(),
        ensures
            final(self).wf(),
            update_post(old(self)@, final(self)@, Message::SleepTimerExpired, effects_view(r@)),
    {
        let ghost s = self@;
        proof {
            reveal(update_post);
        }
        self.sleep_timer = None;
        self.sleep_volume_permille = 1000;
        assert(self@ == AppView { sleep_timer: None, sleep_volume_permille: 1000, ..s });
        self.engine_effect(Effect::Pause)
    }

    /// Turns crossfading on or off.
    fn on_toggle_crossfade(&mut self) -> (r: Vec<Effect>)
        requires
            old(self).wf(),
        ensures
            final(self).wf(),
            update_post(old(self)@, final(self)@, Message::ToggleCrossfade, effects_view(r@)),
    {
        let ghost s = self@;
        proof {
            reveal(update_post);
        }
        self.crossfade.enabled = !self.crossfade.enabled;
        let c = self.crossfade;
        assert(self@ == AppView { crossfade: c, ..s });
        let mut r = self.engine_effect(Effect::SetCrossfade(c));
        push_effect(&mut r, Effect::SaveConfig);
        r
    }

    /// A new crossfade length.
    fn on_set_crossfade_duration(&mut self, ms: u32) -> (r: Vec<Effect>)
        requires
            old(self).wf(),
        ensures
            final(self).wf(),
            update_post(old(self)@, final(self)@, Message::SetCrossfadeDuration(ms), effects_view(r@)),
    {
        let ghost s = self@;
        proof {
            reveal(update_post);
        }
        self.crossfade.duration_ms = ms;
        let c = self.crossfade;
        assert(self@ == AppView { crossfade: c, ..s });
        let mut r = self.engine_effect(Effect::SetCrossfade(c));
        push_effect(&mut r, Effect::SaveConfig);
        r
    }

    /// A new crossfade curve.
    fn on_set_crossfade_curve(&mut self, id: String) -> (r: Vec<Effect>)
        requires
            old(self).wf(),
        ensures
            final(self).wf(),
            update_post(old(self)@, final(self)@, Message::SetCrossfadeCurve(id), effects_view(r@)),
    {
        let ghost s = self@;
        proof {
            reveal(update_post);
        }
        self.crossfade.curve = CrossfadeCurve::from_id(id.as_str());
        let c = self.crossfade;
        assert(self@ == AppView { crossfade: c, ..s });
        let mut r = self.engine_effect(Effect::SetCrossfade(c));
        push_effect(&mut r, Effect::SaveConfig);
        r
    }

    /// Handles a message: changes the state as `update_post` says and returns
    /// the effects to carry out.
    pub fn update(&mut self, msg: Message) -> (r: Vec<Effect>)
        requires
            old(self).wf(),
            msg matches Message::SetSleepTimer(m) ==> m * 60 <= u64::MAX,
        ensures
            final(self).wf(),
            update_post(old(self)@, final(self)@, msg, effects_view(r@)),
            msg matches Message::SearchChanged(q) && q@.len() == 0 ==> final(self)@.filtered_library == old(
                self,
            )@.library,
    {
        match msg {
            Message::PlaySong(rec) => self.on_play_song(rec),
            Message::Pause => self.on_pause(),
            Message::Resume => self.on_resume(),
            Message::Next => self.on_next(),
            Message::Previous => self.on_previous(),
            Message::Seek(p) => self.on_seek(p),
            Message::SetVolume(v) => self.on_set_volume(v),
            Message::ToggleMute => self.on_toggle_mute(),
            Message::PlaybackTick => self.on_tick(),
            Message::Engine(ev) => self.on_engine(ev),
            Message::NavigateTo(v) => self.on_navigate(v),
            Message::SearchChanged(q) => self.on_search(q),
            Message::ToggleLibraryView => self.on_toggle_library_view(),
            Message::ScanLibrary => self.on_scan(),
            Message::IndexProgress(d, n) => self.on_index_progress(d, n),
            Message::IndexComplete(recs) => self.on_index_complete(recs),
            Message::RecommendationsUpdated(recs) => self.on_recommendations(recs),
            Message::AddToQueue(rec) => self.on_add_to_queue(rec),
            Message::RemoveFromQueue(i) => self.on_remove_from_queue(i),
            Message::ToggleShuffle => self.on_toggle_shuffle(),
            Message::ToggleRepeat => self.on_toggle_repeat(),
            Message::ToggleLike => self.on_toggle_like(),
            Message::PickFolder => self.on_pick_folder(),
            Message::MusicFolderChanged(p) => self.on_folder_changed(p),
            Message::SetPalette(id) => self.on_set_palette(id),
            Message::SetFontMode(id) => self.on_set_font_mode(id),
            Message::CheckForUpdate => self.on_check_for_update(),
            Message::UpdateAvailable(version, url) => self.on_update_available(version, url),
            Message::DownloadUpdate(url) => self.on_download_update(url),
            Message::UpdateDownloaded => self.on_update_downloaded(),
            Message::UpdateError(m) => self.on_update_error(m),
            Message::WindowResized(w, height) => self.on_window_resized(w, height),
            Message::RecommenderReady => self.on_recommender_ready(),
            Message::PlaybackEngineReady => self.on_engine_ready(),
            Message::MprisReady => self.on_mpris_ready(),
            Message::LoadAllSongs(recs) => self.on_load_all_songs(recs),
            Message::KeyPressed(k) => self.on_key(k),
            Message::SetEQPreset(id) => self.on_set_eq_preset(id),
            Message::SetEQBand(i) => self.on_set_eq_band(i),
            Message::ToggleEQ => self.on_toggle_eq(),
            Message::MprisIncoming(c) => self.on_mpris(c),
            Message::LyricsLoaded(l) => self.on_lyrics_loaded(l),
            Message::ToggleLyrics => self.on_toggle_lyrics(),
            Message::SetNormalizationMode(m) => self.on_set_normalization(m),
            Message::StatsLoaded => self.on_stats_loaded(),
            Message::RefreshStats => self.on_refresh_stats(),
            Message::SetSleepTimer(m) => self.on_set_sleep_timer(m),
            Message::SleepTimerExpired => self.on_sleep_timer_expired(),
            Message::ToggleCrossfade => self.on_toggle_crossfade(),
            Message::SetCrossfadeDuration(ms) => self.on_set_crossfade_duration(ms),
            Message::SetCrossfadeCurve(id) => self.on_set_crossfade_curve(id),
        }
    }
}

/// The player's state at start-up from the settings `c`.
pub open spec fn initial_view(c: AppConfig) -> AppView {
    AppView {
        active_view: screen::View::NowPlaying,
        current_song: None,
        playback_status: PlaybackStatus::Stopped,
        position_ms: 0,
        duration_ms: 0,
        volume_permille: c.volume_permille,
        listened_secs: 0,
        is_liked: false,
        library: Seq::empty(),
        filtered_library: Seq::empty(),
        search_query: Seq::empty(),
        library_view_mode: crate::modes::layout_from_id(c.library_view_mode@),
        sort_field: SortField::Title,
        sort_ascending: true,
        queue: QueueView { upcoming: Seq::empty(), played: Seq::empty(), cursor: None },
        queue_wf: true,
        recommendations: Seq::empty(),
        shuffle_mode: ShuffleMode::Off,
        repeat_mode: RepeatMode::Off,
        palette_id: c.palette_id@,
        font_mode_id: c.font_mode@,
        music_folder: opt_str(c.music_folder),
        is_indexing: false,
        index_progress: (0, 0),
        update_status: UpdateView::Idle,
        eq_enabled: c.eq_enabled,
        eq_preset_id: c.eq_preset_id@,
        normalization_mode: normalization_from_id(c.normalization_mode@),
        sleep_timer: None,
        sleep_volume_permille: 1000,
        lyrics: LyricsView::NoLyrics,
        show_lyrics: false,
        has_stats: false,
        stats_loading: false,
        crossfade: CrossfadeConfig {
            duration_ms: c.crossfade_duration_ms,
            curve: curve_from_id(c.crossfade_curve@),
            enabled: c.crossfade_enabled,
        },
        recommender_ready: false,
        engine_ready: false,
        mpris_ready: false,
        window_size: (900, 600),
    }
}

/// `c` is `c0` with the user's settings of `s` written into it.
pub open spec fn settings_saved(s: AppView, c0: AppConfig, c: AppConfig) -> bool {
    &&& opt_str(c.music_folder) == s.music_folder
    &&& c.volume_permille == s.volume_permille
    &&& c.palette_id@ == s.palette_id
    &&& c.font_mode@ == s.font_mode_id
    &&& c.library_view_mode@ == crate::modes::layout_id(s.library_view_mode)
    &&& c.eq_enabled == s.eq_enabled
    &&& c.eq_preset_id@ == s.eq_preset_id
    &&& c.normalization_mode@ == normalization_id(s.normalization_mode)
    &&& c.crossfade_enabled == s.crossfade.enabled
    &&& c.crossfade_duration_ms == s.crossfade.duration_ms
    &&& c.crossfade_curve@ == curve_id(s.crossfade.curve)
    &&& c.accent_color_hex == c0.accent_color_hex
    &&& c.last_sleep_timer_mins == c0.last_sleep_timer_mins
}

/// Saved settings come back: a player started from the settings that a
/// state was saved into has that state's volume, folder, palette, font,
/// layout, equalizer, loudness mode and crossfade.
pub proof fn lemma_settings_roundtrip(s: AppView, c0: AppConfig, c: AppConfig)
    requires
        settings_saved(s, c0, c),
    ensures
        initial_view(c).volume_permille == s.volume_permille,
        initial_view(c).music_folder == s.music_folder,
        initial_view(c).palette_id == s.palette_id,
        initial_view(c).font_mode_id == s.font_mode_id,
        initial_view(c).library_view_mode == s.library_view_mode,
        initial_view(c).eq_enabled == s.eq_enabled,
        initial_view(c).eq_preset_id == s.eq_preset_id,
        initial_view(c).normalization_mode == s.normalization_mode,
        initial_view(c).crossfade == s.crossfade,
{
    crate::modes::lemma_layout_toggle_and_roundtrip(s.library_view_mode);
    crate::modes::lemma_normalization_id_roundtrip(s.normalization_mode);
    crate::crossfade::lemma_curve_id_roundtrip(s.crossfade.curve);
}

impl AppState {
    /// The state at start-up, from the saved settings: nothing playing, an
    /// empty library and queue, the settings' volume, layout, folder,
    /// equalizer, loudness and crossfade choices.
    pub fn new(config: &AppConfig) -> (r: AppState)
        ensures
            r.wf(),
            r@ == initial_view(*config),
    {
        let r = AppState {
            active_view: screen::View::NowPlaying,
            current_song: None,
            playback_status: PlaybackStatus::Stopped,
            position_ms: 0,
            duration_ms: 0,
            volume_permille: config.volume_permille,
            listened_secs: 0,
            is_liked: false,
            library: Vec::new(),
            filtered_library: Vec::new(),
            search_query: String::new(),
            library_view_mode: LibraryViewMode::from_config_id(config.library_view_mode.as_str()),
            sort_field: SortField::Title,
            sort_ascending: true,
            queue: PlaybackQueue::new(),
            recommendations: Vec::new(),
            shuffle_mode: ShuffleMode::Off,
            repeat_mode: RepeatMode::Off,
            palette_id: config.palette_id.clone(),
            font_mode_id: config.font_mode.clone(),
            music_folder: config.music_folder.clone(),
            is_indexing: false,
            index_progress: (0, 0),
            update_status: UpdateStatus::Idle,
            eq_enabled: config.eq_enabled,
            eq_preset_id: config.eq_preset_id.clone(),
            normalization_mode: NormalizationMode::from_id(config.normalization_mode.as_str()),
            sleep_timer: None,
            sleep_volume_permille: 1000,
            lyrics: Lyrics::NoLyrics,
            show_lyrics: false,
            has_stats: false,
            stats_loading: false,
            crossfade: CrossfadeConfig {
                duration_ms: config.crossfade_duration_ms,
                curve: CrossfadeCurve::from_id(config.crossfade_curve.as_str()),
                enabled: config.crossfade_enabled,
            },
            recommender_ready: false,
            engine_ready: false,
            mpris_ready: false,
            window_size: (900, 600),
        };
        assert(records_view(r.library@) =~= Seq::<RecordView>::empty());
        assert(records_view(r.filtered_library@) =~= Seq::<RecordView>::empty());
        assert(records_view(r.recommendations@) =~= Seq::<RecordView>::empty());
        r
    }

    /// The window title: the current song's title followed by the player's
    /// name, or the name alone.
    pub fn title(&self) -> (r: String)
        ensures
            r@ == (match self@.current_song {
                Some(c) => c.title + " — Musico"@,
                None => "Musico"@,
            }),
    {
        match &self.current_song {
            Some(c) => {
                let mut t = c.title.clone();
                t.append(" — Musico");
                t
            },
            None => "Musico".to_string(),
        }
    }

    /// Writes the settings that the user can change into `config` (what
    /// `Effect::SaveConfig` persists); the other fields stay as they were.
    pub fn apply_to_config(&self, config: &mut AppConfig)
        ensures
            settings_saved(self@, *old(config), *final(config)),
    {
        config.music_folder = self.music_folder.clone();
        config.volume_permille = self.volume_permille;
        config.palette_id = self.palette_id.clone();
        config.font_mode = self.font_mode_id.clone();
        config.library_view_mode = self.library_view_mode.config_id().to_string();
        config.eq_enabled = self.eq_enabled;
        config.eq_preset_id = self.eq_preset_id.clone();
        config.normalization_mode = self.normalization_mode.id().to_string();
        config.crossfade_enabled = self.crossfade.enabled;
        config.crossfade_duration_ms = self.crossfade.duration_ms;
        config.crossfade_curve = self.crossfade.curve.id().to_string();
    }
}

/// A song added to an empty queue is the one the next song command plays.
#[verifier::spinoff_prover]
pub proof fn lemma_added_song_plays_next(
    s: AppView,
    t: AppView,
    u: AppView,
    r: SongRecord,
    e1: Seq<EffectView>,
    e2: Seq<EffectView>,
)
    requires
        s.queue.upcoming.len() == 0,
        s.engine_ready,
        update_post(s, t, Message::AddToQueue(r), e1),
        update_post(t, u, Message::Next, e2),
    ensures
        e1.len() == 0,
        e2 == seq![EffectView::Play(record_song(r@))],
        u.queue.upcoming.len() == 0,
        u.queue.played.last() == record_song(r@),
{
    reveal(update_post);
    reveal(play_next_post);
    assert(t.queue.upcoming =~= seq![record_song(r@)]);
    assert(u.queue == queue_advanced(t.queue));
}

/// Showing or hiding the lyrics twice gives the state back, with nothing
/// to do.
#[verifier::spinoff_prover]
pub proof fn lemma_toggle_lyrics_twice(s: AppView, t: AppView, u: AppView, e1: Seq<EffectView>, e2: Seq<EffectView>)
    requires
        update_post(s, t, Message::ToggleLyrics, e1),
        update_post(t, u, Message::ToggleLyrics, e2),
    ensures
        u == s,
        e1.len() == 0 && e2.len() == 0,
{
    reveal(update_post);
}

/// What one press of the shuffle button does to the mode and the queue.
#[verifier::spinoff_prover]
proof fn lemma_toggle_shuffle_step(s: AppView, t: AppView, e: Seq<EffectView>)
    requires
        update_post(s, t, Message::ToggleShuffle, e),
    ensures
        t.shuffle_mode == s.shuffle_mode.cycled_spec(),
        t.queue.played == s.queue.played,
        t.queue.cursor == s.queue.cursor,
        crate::perm::is_permutation(s.queue.upcoming, t.queue.upcoming),
{
    reveal(update_post);
    crate::perm::lemma_permutation_refl(s.queue.upcoming);
}

/// Three presses of the shuffle button give the mode back and leave the
/// history alone.
pub proof fn lemma_shuffle_three_times(
    s: AppView,
    t: AppView,
    u: AppView,
    w: AppView,
    e1: Seq<EffectView>,
    e2: Seq<EffectView>,
    e3: Seq<EffectView>,
)
    requires
        update_post(s, t, Message::ToggleShuffle, e1),
        update_post(t, u, Message::ToggleShuffle, e2),
        update_post(u, w, Message::ToggleShuffle, e3),
    ensures
        w.shuffle_mode == s.shuffle_mode,
        w.queue.played == s.queue.played,
        w.queue.cursor == s.queue.cursor,
        crate::perm::is_permutation(s.queue.upcoming, w.queue.upcoming),
{
    lemma_toggle_shuffle_step(s, t, e1);
    lemma_toggle_shuffle_step(t, u, e2);
    lemma_toggle_shuffle_step(u, w, e3);
    crate::modes::lemma_shuffle_cycle(s.shuffle_mode);
    crate::perm::lemma_permutation_trans(s.queue.upcoming, t.queue.upcoming, u.queue.upcoming);
    crate::perm::lemma_permutation_trans(s.queue.upcoming, u.queue.upcoming, w.queue.upcoming);
}

/// Once the engine reports a song playing, the player shows it as the
/// current song, playing from the start.
#[verifier::spinoff_prover]
pub proof fn lemma_playing_event_shows_song(s: AppView, t: AppView, song: SongInfo, e: Seq<EffectView>)
    requires
        update_post(s, t, Message::Engine(PlaybackEvent::Playing(song)), e),
    ensures
        t.current_song == Some(song@),
        t.playback_status == PlaybackStatus::Playing,
        t.position_ms == 0,
        t.duration_ms == song@.duration_ms,
        t.queue == s.queue,
{
    reveal(update_post);
    reveal(engine_event_post);
}

/// When a song ends and repeat-one is off, the player moves on: with songs
/// queued, the first of them leaves the queue for the history and is the
/// last effect, a request to play it (after the listen is logged); with
/// repeat-one on, the queue stays as it is and the same song is asked for
/// again.
#[verifier::spinoff_prover]
pub proof fn lemma_song_end_moves_on(
    s: AppView,
    t: AppView,
    song_id: String,
    listened_secs: u32,
    duration_ms: u64,
    e: Seq<EffectView>,
)
    requires
        update_post(s, t, Message::Engine(PlaybackEvent::SongEnded { song_id, listened_secs, duration_ms }), e),
        s.engine_ready,
    ensures
        s.repeat_mode != RepeatMode::One && s.queue.upcoming.len() > 0 ==> {
            &&& t.queue.upcoming == s.queue.upcoming.drop_first()
            &&& t.queue.played == s.queue.played.push(s.queue.upcoming[0])
            &&& e.len() > 0
            &&& e.last() == EffectView::Play(s.queue.upcoming[0])
        },
        s.repeat_mode == RepeatMode::One ==> {
            &&& t.queue == s.queue
            &&& (s.current_song matches Some(c) ==> e.len() > 0 && e.last() == EffectView::Play(c))
        },
{
    reveal(update_post);
    reveal(engine_event_post);
    reveal(play_next_post);
    if s.repeat_mode != RepeatMode::One && s.queue.upcoming.len() > 0 {
        let rest = choose|rest: Seq<EffectView>| #[trigger] play_next_post(s, t, rest) && e == opt_eff(
            s.recommender_ready,
            EffectView::LogListen { song_id: song_id@, listened_secs, duration_secs: whole_secs(duration_ms) },
        ) + rest;
        assert(play_next_post(s, t, rest));
    }
}

/// A volume set by the user is stored as given, and the engine is sent it
/// within range: above full it gets full volume.
#[verifier::spinoff_prover]
pub proof fn lemma_set_volume(s: AppView, t: AppView, v: u32, e: Seq<EffectView>)
    requires
        update_post(s, t, Message::SetVolume(v), e),
        s.engine_ready,
    ensures
        t.volume_permille == v,
        e == seq![EffectView::SetVolume(if v > 1000 { 1000 } else { v }), EffectView::SaveConfig],
{
    reveal(update_post);
}

} // verus!
