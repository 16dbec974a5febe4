use musico::config::AppConfig;
use musico::crossfade::{CrossfadeConfig, CrossfadeCurve};
use musico::modes::{LibraryViewMode, NormalizationMode, RepeatMode, ShuffleMode, UpdateStatus};
use musico::mpris::{command_for, metadata_for, track_object_path, MprisRoot, PlayerRequest};
use musico::playback::{PlaybackEvent, PlaybackStatus};
use musico::player::{search_library, AppState, Effect, Key, Message, MprisCommand};
use musico::screen::View;
use musico::song::{SongInfo, SongRecord};
use musico::timer::TimerStatus;

fn record(id: &str, title: &str, artist: &str, secs: u32) -> SongRecord {
    SongRecord {
        id: id.to_string(),
        file_path: format!("/music/{id}.flac"),
        title: title.to_string(),
        artist: artist.to_string(),
        album: "Album".to_string(),
        duration_secs: secs,
    }
}

fn ready_state() -> AppState {
    let cfg = AppConfig::defaults_with_folder(Some("/music".to_string()));
    let mut st = AppState::new(&cfg);
    st.update(Message::PlaybackEngineReady);
    st
}

fn is_play_of(e: &Effect, id: &str) -> bool {
    matches!(e, Effect::Play(s) if s.id == id)
}

#[test]
fn new_state_follows_the_settings() {
    let mut cfg = AppConfig::defaults_with_folder(None);
    cfg.volume_permille = 400;
    cfg.library_view_mode = "list".to_string();
    cfg.normalization_mode = "album".to_string();
    cfg.crossfade_curve = "overlap".to_string();
    cfg.crossfade_enabled = true;
    let st = AppState::new(&cfg);
    assert_eq!(st.volume_permille, 400);
    assert_eq!(st.library_view_mode, LibraryViewMode::List);
    assert_eq!(st.normalization_mode, NormalizationMode::Album);
    assert_eq!(st.crossfade.curve, CrossfadeCurve::Overlap);
    assert!(st.crossfade.enabled);
    assert_eq!(st.playback_status, PlaybackStatus::Stopped);
    assert_eq!(st.active_view, View::NowPlaying);
    assert_eq!(st.window_size, (900, 600));
    assert!(!st.engine_ready);
}

#[test]
fn settings_written_back() {
    let cfg = AppConfig::defaults_with_folder(None);
    let mut st = AppState::new(&cfg);
    st.update(Message::ToggleLibraryView);
    st.update(Message::SetVolume(250));
    st.update(Message::SetNormalizationMode(NormalizationMode::Track));
    st.update(Message::SetCrossfadeCurve("linear".to_string()));
    let mut out = AppConfig::defaults_with_folder(None);
    out.last_sleep_timer_mins = 45;
    st.apply_to_config(&mut out);
    assert_eq!(out.library_view_mode, "list");
    assert_eq!(out.volume_permille, 250);
    assert_eq!(out.normalization_mode, "track");
    assert_eq!(out.crossfade_curve, "linear");
    assert_eq!(out.last_sleep_timer_mins, 45);
}

#[test]
fn nothing_reaches_the_engine_before_it_is_ready() {
    let cfg = AppConfig::defaults_with_folder(None);
    let mut st = AppState::new(&cfg);
    let effects = st.update(Message::PlaySong(record("a", "A", "X", 100)));
    assert!(effects.is_empty());
    let effects = st.update(Message::Pause);
    assert!(effects.is_empty());
}

#[test]
fn play_song_asks_engine_lyrics_and_recommendations() {
    let mut st = ready_state();
    st.update(Message::RecommenderReady);
    let effects = st.update(Message::PlaySong(record("a", "A", "X", 100)));
    assert_eq!(effects.len(), 3);
    assert!(is_play_of(&effects[0], "a"));
    assert!(matches!(&effects[1], Effect::LoadLyrics(p) if p == "/music/a.flac"));
    assert!(matches!(&effects[2], Effect::RequestRecommendations(id) if id == "a"));
    assert!(st.current_song.is_none());
}

#[test]
fn queued_song_plays_next_then_previous_returns() {
    let mut st = ready_state();
    st.update(Message::AddToQueue(record("a", "A", "X", 100)));
    st.update(Message::AddToQueue(record("b", "B", "X", 100)));
    let e1 = st.update(Message::Next);
    assert!(is_play_of(&e1[0], "a"));
    let e2 = st.update(Message::Next);
    assert!(is_play_of(&e2[0], "b"));
    let e3 = st.update(Message::Previous);
    assert!(is_play_of(&e3[0], "a"));
    let e4 = st.update(Message::Previous);
    assert!(e4.is_empty());
}

#[test]
fn next_with_empty_queue_uses_repeat_all_or_nothing() {
    let mut st = ready_state();
    st.update(Message::LoadAllSongs(vec![record("a", "A", "X", 100), record("b", "B", "Y", 90)]));
    assert!(st.update(Message::Next).is_empty());
    st.update(Message::ToggleRepeat);
    assert_eq!(st.repeat_mode, RepeatMode::All);
    let e = st.update(Message::Next);
    assert!(is_play_of(&e[0], "a"));
}

#[test]
fn smart_radio_takes_first_recommendation() {
    let mut st = ready_state();
    st.update(Message::ToggleShuffle);
    st.update(Message::ToggleShuffle);
    assert_eq!(st.shuffle_mode, ShuffleMode::SmartRadio);
    st.update(Message::RecommendationsUpdated(vec![record("r1", "R1", "Z", 80), record("r2", "R2", "Z", 80)]));
    let e = st.update(Message::Next);
    assert!(is_play_of(&e[0], "r1"));
    assert_eq!(st.recommendations.len(), 1);
    assert_eq!(st.recommendations[0].id, "r2");
}

#[test]
fn shuffle_picks_a_library_song() {
    let mut st = ready_state();
    st.update(Message::LoadAllSongs(vec![record("a", "A", "X", 100), record("b", "B", "Y", 90)]));
    st.update(Message::ToggleShuffle);
    let e = st.update(Message::Next);
    assert_eq!(e.len(), 1);
    assert!(is_play_of(&e[0], "a") || is_play_of(&e[0], "b"));
}

#[test]
fn shuffle_three_times_keeps_queue_songs() {
    let mut st = ready_state();
    for id in ["a", "b", "c"] {
        st.update(Message::AddToQueue(record(id, id, "X", 60)));
    }
    for _ in 0..3 {
        st.update(Message::ToggleShuffle);
    }
    assert_eq!(st.shuffle_mode, ShuffleMode::Off);
    let mut ids: Vec<String> = (0..3).map(|i| st.queue.get(i).unwrap().id).collect();
    ids.sort();
    assert_eq!(ids, vec!["a", "b", "c"]);
}

#[test]
fn search_filters_by_title_or_artist_ignoring_case() {
    let lib = vec![record("1", "Blue Moon", "Ann", 100), record("2", "Red", "Moonlight", 100), record("3", "Green", "Bob", 100)];
    let r = search_library(&lib, "MOON");
    assert_eq!(r.len(), 2);
    assert_eq!(r[0].id, "1");
    assert_eq!(r[1].id, "2");
    assert_eq!(search_library(&lib, "").len(), 3);
    let mut st = ready_state();
    st.update(Message::LoadAllSongs(lib));
    st.update(Message::SearchChanged("bob".to_string()));
    assert_eq!(st.filtered_library.len(), 1);
    st.update(Message::KeyPressed(Key::Escape));
    assert_eq!(st.search_query, "");
    assert_eq!(st.filtered_library.len(), 3);
}

#[test]
fn keys_change_volume_and_seek_within_song() {
    let mut st = ready_state();
    st.volume_permille = 980;
    let e = st.update(Message::KeyPressed(Key::ArrowUp));
    assert_eq!(st.volume_permille, 1000);
    assert!(matches!(e[0], Effect::SetVolume(1000)));
    st.volume_permille = 30;
    st.update(Message::KeyPressed(Key::ArrowDown));
    assert_eq!(st.volume_permille, 0);
    st.duration_ms = 10_000;
    st.position_ms = 8_000;
    let e = st.update(Message::KeyPressed(Key::ArrowRight));
    assert!(matches!(e[0], Effect::Seek(10_000)));
    st.position_ms = 2_000;
    let e = st.update(Message::KeyPressed(Key::ArrowLeft));
    assert!(matches!(e[0], Effect::Seek(0)));
}

#[test]
fn space_toggles_play_pause() {
    let mut st = ready_state();
    assert!(st.update(Message::KeyPressed(Key::Space)).is_empty());
    st.playback_status = PlaybackStatus::Playing;
    assert!(matches!(st.update(Message::KeyPressed(Key::Space))[0], Effect::Pause));
    st.playback_status = PlaybackStatus::Paused;
    assert!(matches!(st.update(Message::KeyPressed(Key::Space))[0], Effect::Resume));
}

#[test]
fn letter_keys_cycle_modes() {
    let mut st = ready_state();
    st.update(Message::KeyPressed(Key::Char('s')));
    assert_eq!(st.shuffle_mode, ShuffleMode::Shuffle);
    st.update(Message::KeyPressed(Key::Char('r')));
    st.update(Message::KeyPressed(Key::Char('r')));
    assert_eq!(st.repeat_mode, RepeatMode::One);
    st.update(Message::KeyPressed(Key::Char('l')));
    assert!(st.show_lyrics);
    st.update(Message::ToggleLyrics);
    assert!(!st.show_lyrics);
    assert!(st.update(Message::KeyPressed(Key::Char('x'))).is_empty());
}

#[test]
fn media_controls_seek_and_volume() {
    let mut st = ready_state();
    st.duration_ms = 60_000;
    st.position_ms = 1_000;
    let e = st.update(Message::MprisIncoming(MprisCommand::Seek(-5_000_000)));
    assert!(matches!(e[0], Effect::Seek(0)));
    let e = st.update(Message::MprisIncoming(MprisCommand::SetVolume(1500)));
    assert!(matches!(e[0], Effect::SetVolume(1000)));
    assert_eq!(st.volume_permille, 1000);
    let e = st.update(Message::MprisIncoming(MprisCommand::Stop));
    assert!(matches!(e[0], Effect::Stop));
}

#[test]
fn engine_events_update_the_display() {
    let mut st = ready_state();
    st.update(Message::AddToQueue(record("n", "Next", "X", 50)));
    let song = SongInfo {
        id: "s".to_string(),
        file_path: "/music/s.flac".to_string(),
        title: "S".to_string(),
        artist: "A".to_string(),
        album: "B".to_string(),
        duration_ms: 123_000,
        cover_art: None,
    };
    let e = st.update(Message::Engine(PlaybackEvent::Playing(song)));
    assert_eq!(st.playback_status, PlaybackStatus::Playing);
    assert_eq!(st.duration_ms, 123_000);
    assert_eq!(st.current_song.as_ref().unwrap().id, "s");
    assert!(matches!(e[0], Effect::ResetArtTint));
    assert!(matches!(&e[1], Effect::PreloadNext(s) if s.id == "n"));
    st.update(Message::Engine(PlaybackEvent::Paused { position_ms: 4_000 }));
    assert_eq!(st.playback_status, PlaybackStatus::Paused);
    assert_eq!(st.position_ms, 4_000);
    st.update(Message::Engine(PlaybackEvent::Stopped));
    assert!(st.current_song.is_none());
}

#[test]
fn cover_art_is_sent_for_tinting() {
    let mut st = ready_state();
    let song = SongInfo {
        id: "s".to_string(),
        file_path: "p".to_string(),
        title: "S".to_string(),
        artist: String::new(),
        album: String::new(),
        duration_ms: 1_000,
        cover_art: Some(vec![1, 2, 3]),
    };
    let e = st.update(Message::Engine(PlaybackEvent::Playing(song)));
    assert_eq!(e.len(), 1);
    assert!(matches!(&e[0], Effect::ExtractArtColor(b) if b == &vec![1u8, 2, 3]));
}

#[test]
fn song_end_logs_listen_and_repeats_one() {
    let mut st = ready_state();
    st.update(Message::RecommenderReady);
    st.current_song = Some(SongInfo {
        id: "s".to_string(),
        file_path: "p".to_string(),
        title: "S".to_string(),
        artist: String::new(),
        album: String::new(),
        duration_ms: 200_500,
        cover_art: None,
    });
    st.repeat_mode = RepeatMode::One;
    let e = st.update(Message::Engine(PlaybackEvent::SongEnded {
        song_id: "s".to_string(),
        listened_secs: 190,
        duration_ms: 200_500,
    }));
    assert_eq!(e.len(), 2);
    assert!(matches!(&e[0], Effect::LogListen { song_id, listened_secs: 190, duration_secs: 200 } if song_id == "s"));
    assert!(is_play_of(&e[1], "s"));
}

#[test]
fn sleep_timer_fades_and_expires() {
    let mut st = ready_state();
    st.volume_permille = 800;
    let e = st.update(Message::SetSleepTimer(15));
    assert!(matches!(e[0], Effect::SaveSleepTimer(15)));
    assert!(st.sleep_timer.is_some());
    let e = st.tick_with(Some(TimerStatus::Fading { volume_permille: 500, remaining_ms: 15_000 }));
    assert_eq!(st.sleep_volume_permille, 500);
    assert!(matches!(e[0], Effect::SetVolume(400)));
    let e = st.tick_with(Some(TimerStatus::Expired));
    assert!(matches!(e[0], Effect::SleepTimerExpired));
    let e = st.update(Message::SleepTimerExpired);
    assert!(st.sleep_timer.is_none());
    assert_eq!(st.sleep_volume_permille, 1000);
    assert!(matches!(e[0], Effect::Pause));
    let e = st.update(Message::SetSleepTimer(0));
    assert!(e.is_empty());
}

#[test]
fn equalizer_presets_and_bands() {
    let mut st = ready_state();
    let e = st.update(Message::SetEQPreset("rock".to_string()));
    assert!(st.eq_enabled);
    assert!(matches!(e[0], Effect::SetEq(true)));
    assert!(matches!(e[1], Effect::SaveConfig));
    st.update(Message::SetEQPreset("flat".to_string()));
    assert!(!st.eq_enabled);
    st.update(Message::SetEQBand(3));
    assert_eq!(st.eq_preset_id, "custom");
    st.eq_preset_id = "jazz".to_string();
    assert!(st.update(Message::SetEQBand(10)).is_empty());
    assert_eq!(st.eq_preset_id, "jazz");
}

#[test]
fn crossfade_settings_are_sent() {
    let mut st = ready_state();
    let e = st.update(Message::SetCrossfadeDuration(5000));
    assert!(matches!(e[0], Effect::SetCrossfade(CrossfadeConfig { duration_ms: 5000, .. })));
    st.update(Message::ToggleCrossfade);
    assert!(st.crossfade.enabled);
}

#[test]
fn stats_load_on_first_visit_only() {
    let mut st = ready_state();
    assert!(st.update(Message::NavigateTo(View::Stats)).is_empty());
    st.update(Message::RecommenderReady);
    let e = st.update(Message::NavigateTo(View::Stats));
    assert!(matches!(e[0], Effect::LoadStats));
    assert!(st.stats_loading);
    assert!(st.update(Message::NavigateTo(View::Stats)).is_empty());
    st.update(Message::StatsLoaded);
    assert!(st.has_stats && !st.stats_loading);
}

#[test]
fn update_flow_statuses() {
    let mut st = ready_state();
    st.update(Message::CheckForUpdate);
    assert!(matches!(st.update_status, UpdateStatus::Checking));
    st.update(Message::UpdateAvailable("1.2.0".to_string(), "http://x".to_string()));
    assert!(matches!(&st.update_status, UpdateStatus::Available { version, .. } if version == "1.2.0"));
    let e = st.update(Message::DownloadUpdate("http://x".to_string()));
    assert!(matches!(&e[0], Effect::DownloadUpdate(u) if u == "http://x"));
    st.update(Message::UpdateError("boom".to_string()));
    assert!(matches!(&st.update_status, UpdateStatus::Error(m) if m == "boom"));
}

#[test]
fn scan_needs_folder_and_recommender() {
    let mut st = ready_state();
    assert!(st.update(Message::ScanLibrary).is_empty());
    st.update(Message::RecommenderReady);
    let e = st.update(Message::ScanLibrary);
    assert!(matches!(&e[0], Effect::StartScan(f) if f == "/music"));
    assert!(st.is_indexing);
    st.update(Message::IndexComplete(vec![record("a", "A", "X", 1)]));
    assert!(!st.is_indexing);
    assert_eq!(st.library.len(), 1);
}

#[test]
fn like_needs_a_current_song() {
    let mut st = ready_state();
    st.update(Message::ToggleLike);
    assert!(!st.is_liked);
}

#[test]
fn media_root_answers() {
    let root = MprisRoot;
    root.raise();
    assert!(root.can_quit());
    assert!(!root.can_raise());
    assert!(!root.has_track_list());
    assert_eq!(root.identity(), "Musico");
    assert_eq!(root.desktop_entry(), "musico");
    assert_eq!(root.supported_uri_schemes(), vec!["file"]);
    assert_eq!(root.supported_mime_types().len(), 6);
}

#[test]
fn media_metadata_and_track_path() {
    let mut st = ready_state();
    st.duration_ms = 2_500;
    st.position_ms = 1_000;
    st.playback_status = PlaybackStatus::Buffering;
    let m = metadata_for(&st);
    assert_eq!(m.duration_us, 2_500_000);
    assert_eq!(m.position_us, 1_000_000);
    assert_eq!(m.playback_status, "Stopped");
    assert_eq!(m.track_id, "");
    assert_eq!(track_object_path("ab-cd-1"), "/org/mpris/MediaPlayer2/Track/ab_cd_1");
}

#[test]
fn window_title_follows_song() {
    let mut st = ready_state();
    assert_eq!(st.title(), "Musico");
    st.current_song = Some(SongInfo {
        id: "s".to_string(),
        file_path: "p".to_string(),
        title: "Blue".to_string(),
        artist: String::new(),
        album: String::new(),
        duration_ms: 0,
        cover_art: None,
    });
    assert_eq!(st.title(), "Blue — Musico");
}

#[test]
fn media_requests_become_commands() {
    assert_eq!(command_for(PlayerRequest::Pause), MprisCommand::PlayPause);
    assert_eq!(command_for(PlayerRequest::Play), MprisCommand::PlayPause);
    assert_eq!(command_for(PlayerRequest::Next), MprisCommand::Next);
    assert_eq!(command_for(PlayerRequest::Seek(-10)), MprisCommand::Seek(-10));
}

#[test]
fn left_arrow_seeks_back_even_without_a_known_length() {
    let mut st = ready_state();
    st.duration_ms = 0;
    st.position_ms = 20_000;
    let e = st.update(Message::KeyPressed(Key::ArrowLeft));
    assert!(matches!(e[0], Effect::Seek(15_000)));
}

#[test]
fn volume_sent_to_engine_is_within_range() {
    let mut st = ready_state();
    let e = st.update(Message::SetVolume(2000));
    assert_eq!(st.volume_permille, 2000);
    assert!(matches!(e[0], Effect::SetVolume(1000)));
    let e = st.update(Message::SetVolume(750));
    assert!(matches!(e[0], Effect::SetVolume(750)));
}

#[test]
fn empty_search_lists_whole_library() {
    let mut st = ready_state();
    st.update(Message::SearchChanged("zzz-no-match".to_string()));
    assert!(st.filtered_library.is_empty());
    st.update(Message::SearchChanged(String::new()));
    assert_eq!(st.filtered_library.len(), st.library.len());
}
