use musico::crossfade::CrossfadeCurve;
use musico::modes::{LibraryViewMode, NormalizationMode};
use musico::config::AppConfig;
use musico::playback::{step, EngineAction, EnginePhase, PlaybackCommand, PlaybackEvent, PlaybackState, PlaybackStatus};
use musico::player::{AppState, Effect, Message};
use musico::song::SongInfo;
use musico::timer::{SleepTimer, TimerStatus};
use musico::updater::is_newer;

fn loaded_state() -> PlaybackState {
    let mut st = PlaybackState::default();
    st.status = PlaybackStatus::Playing;
    st.position_ms = 1_234;
    st.duration_ms = 9_000;
    st.volume_permille = 640;
    st.current_song = Some(SongInfo {
        id: "x".to_string(),
        file_path: "/x.flac".to_string(),
        title: "X".to_string(),
        artist: String::new(),
        album: String::new(),
        duration_ms: 9_000,
        cover_art: None,
    });
    st
}

#[test]
fn stop_unloads_from_every_phase() {
    for phase in [EnginePhase::Idle, EnginePhase::Playing, EnginePhase::Paused] {
        let mut st = loaded_state();
        let (next, actions) = step(&mut st, phase, PlaybackCommand::Stop);
        assert_eq!(next, EnginePhase::Idle);
        assert_eq!(st.status, PlaybackStatus::Stopped);
        assert!(st.current_song.is_none());
        assert_eq!(st.position_ms, 0);
        assert_eq!(st.volume_permille, 640);
        assert!(matches!(actions[0], EngineAction::Emit(PlaybackEvent::Stopped)));
    }
}

#[test]
fn mute_then_unmute_restores_volume() {
    let mut st = loaded_state();
    let (p1, _) = step(&mut st, EnginePhase::Playing, PlaybackCommand::Mute);
    assert!(st.muted);
    let (p2, _) = step(&mut st, p1, PlaybackCommand::Unmute);
    assert_eq!(p2, EnginePhase::Playing);
    assert!(!st.muted);
    assert_eq!(st.volume_permille, 640);
    assert_eq!(st.position_ms, 1_234);
}

#[test]
fn pause_then_resume_continues_same_song() {
    let mut st = loaded_state();
    let (p1, a1) = step(&mut st, EnginePhase::Playing, PlaybackCommand::Pause);
    assert_eq!(p1, EnginePhase::Paused);
    assert!(matches!(a1[0], EngineAction::Emit(PlaybackEvent::Paused { position_ms: 1_234 })));
    let (p2, a2) = step(&mut st, p1, PlaybackCommand::Resume);
    assert_eq!(p2, EnginePhase::Playing);
    assert!(matches!(a2[0], EngineAction::Emit(PlaybackEvent::Resumed)));
    assert_eq!(st.status, PlaybackStatus::Playing);
    assert_eq!(st.current_song.as_ref().unwrap().id, "x");
    assert_eq!(st.position_ms, 1_234);
}

#[test]
fn timer_fade_never_rises() {
    let t = SleepTimer::new(1);
    let mut last = u128::MAX;
    for e in (30_000..60_000u128).step_by(1_000) {
        match t.status_after(e) {
            TimerStatus::Fading { volume_permille, .. } => {
                assert!(volume_permille <= last);
                last = volume_permille;
            }
            other => panic!("expected a fade, got {other:?}"),
        }
    }
    assert!(matches!(t.status_after(60_000), TimerStatus::Expired));
    assert!(matches!(t.status_after(61_000), TimerStatus::Expired));
}

#[test]
fn newer_is_a_strict_order() {
    let versions = ["0.9.9", "1.0.0", "1.0.1", "1.2", "2.0.0"];
    for a in versions {
        assert!(!is_newer(a, a));
        for b in versions {
            assert!(!(is_newer(a, b) && is_newer(b, a)));
            for c in versions {
                if is_newer(a, b) && is_newer(b, c) {
                    assert!(is_newer(a, c));
                }
            }
        }
    }
}

#[test]
fn set_volume_reaches_engine_and_settings() {
    let cfg = AppConfig::defaults_with_folder(None);
    let mut st = AppState::new(&cfg);
    st.update(Message::PlaybackEngineReady);
    let e = st.update(Message::SetVolume(300));
    assert_eq!(st.volume_permille, 300);
    assert_eq!(e.len(), 2);
    assert!(matches!(e[0], Effect::SetVolume(300)));
    assert!(matches!(e[1], Effect::SaveConfig));
}

#[test]
fn toggling_lyrics_twice_restores() {
    let cfg = AppConfig::defaults_with_folder(None);
    let mut st = AppState::new(&cfg);
    let before = st.show_lyrics;
    assert!(st.update(Message::ToggleLyrics).is_empty());
    assert!(st.update(Message::ToggleLyrics).is_empty());
    assert_eq!(st.show_lyrics, before);
}

#[test]
fn saved_settings_come_back() {
    let mut st = AppState::new(&AppConfig::defaults_with_folder(None));
    st.update(Message::ToggleLibraryView);
    st.update(Message::SetVolume(420));
    st.update(Message::SetNormalizationMode(NormalizationMode::Album));
    st.update(Message::SetCrossfadeCurve("overlap".to_string()));
    st.update(Message::SetCrossfadeDuration(4500));
    st.update(Message::MusicFolderChanged("/songs".to_string()));
    let mut cfg = AppConfig::defaults_with_folder(None);
    st.apply_to_config(&mut cfg);
    let back = AppState::new(&cfg);
    assert_eq!(back.volume_permille, 420);
    assert_eq!(back.library_view_mode, LibraryViewMode::List);
    assert_eq!(back.normalization_mode, NormalizationMode::Album);
    assert_eq!(back.crossfade.curve, CrossfadeCurve::Overlap);
    assert_eq!(back.crossfade.duration_ms, 4500);
    assert_eq!(back.music_folder.as_deref(), Some("/songs"));
}
