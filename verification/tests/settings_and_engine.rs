use musico::screen::{layout_for, Layout};
use musico::config::{
    default_crossfade_curve, default_crossfade_duration, default_eq_preset, default_font_mode, default_norm_mode,
    default_palette_id, AppConfig,
};
use musico::crossfade::{CrossfadeConfig, CrossfadeCurve, CrossfadeMixer};
use musico::eq::{preset_by_id, preset_enables, preset_id, preset_name, PRESET_COUNT};
use musico::lyrics::{lyrics_from_content, parse_lrc, Lyrics};
use musico::modes::{LibraryViewMode, NormalizationMode, RepeatMode, ShuffleMode};
use musico::paths::{cover_cache_dir_in, cover_path_for, get_cover_path, path_join, settings_path_from};
use musico::playback::{
    adapt_channels, clamp_volume, frames_to_millis, seek_done, step, EngineAction, EnginePhase, PlaybackCommand,
    PlaybackEvent, PlaybackState, PlaybackStatus,
};
use musico::song::SongInfo;
use musico::timer::{timer_presets, SleepTimer, TimerStatus};
use musico::updater::{status_error, StatusError, evaluate_release, is_linux_x86_asset, is_newer, parse_version, tag_version, ReleaseAsset, ReleaseError};

fn song(id: &str) -> SongInfo {
    SongInfo {
        id: id.to_string(),
        file_path: format!("/{id}.flac"),
        title: id.to_string(),
        artist: String::new(),
        album: String::new(),
        duration_ms: 1_000,
        cover_art: None,
    }
}

#[test]
fn mode_cycles_and_ids() {
    assert_eq!(ShuffleMode::Off.cycled().cycled().cycled(), ShuffleMode::Off);
    assert_eq!(ShuffleMode::Off.cycled(), ShuffleMode::Shuffle);
    assert_eq!(RepeatMode::One.cycled(), RepeatMode::Off);
    assert_eq!(RepeatMode::Off.cycled().cycled().cycled(), RepeatMode::Off);
    assert_eq!(LibraryViewMode::Grid.toggled().toggled(), LibraryViewMode::Grid);
    assert_eq!(LibraryViewMode::from_config_id(LibraryViewMode::List.config_id()), LibraryViewMode::List);
    assert_eq!(LibraryViewMode::from_config_id("other"), LibraryViewMode::Grid);
    for m in [NormalizationMode::Off, NormalizationMode::Track, NormalizationMode::Album] {
        assert_eq!(NormalizationMode::from_id(m.id()), m);
    }
    assert_eq!(NormalizationMode::from_id("loud"), NormalizationMode::Off);
    assert_eq!(NormalizationMode::Track.label(), "Track");
    for c in [CrossfadeCurve::Linear, CrossfadeCurve::EqualPower, CrossfadeCurve::Overlap] {
        assert_eq!(CrossfadeCurve::from_id(c.id()), c);
    }
    assert_eq!(CrossfadeCurve::from_id("nope"), CrossfadeCurve::Linear);
    assert_eq!(CrossfadeCurve::EqualPower.label(), "Equal Power");
}

#[test]
fn config_defaults_and_migration() {
    assert_eq!(default_palette_id(), "nebula");
    assert_eq!(default_font_mode(), "classic");
    assert_eq!(default_eq_preset(), "flat");
    assert_eq!(default_norm_mode(), "off");
    assert_eq!(default_crossfade_duration(), 3000);
    assert_eq!(default_crossfade_curve(), "equal_power");
    let mut c = AppConfig::defaults_with_folder(Some("/m".to_string()));
    assert_eq!(c.volume_permille, 1000);
    c.palette_id = String::new();
    c.eq_preset_id = String::new();
    c.font_mode = "modern".to_string();
    c.migrate();
    assert_eq!(c.palette_id, "nebula");
    assert_eq!(c.eq_preset_id, "flat");
    assert_eq!(c.font_mode, "modern");
    assert_eq!(c.music_folder.as_deref(), Some("/m"));
}

#[test]
fn eq_presets_by_id() {
    assert_eq!(PRESET_COUNT, 12);
    assert_eq!(preset_by_id("rock"), 7);
    assert_eq!(preset_id(7), "rock");
    assert_eq!(preset_name(7), "Rock");
    assert_eq!(preset_by_id("unknown"), 0);
    assert!(!preset_enables(0));
    assert!(preset_enables(preset_by_id("jazz")));
}

#[test]
fn cover_paths() {
    assert_eq!(path_join("/a", "b"), "/a/b");
    assert_eq!(path_join("/a/", "b"), "/a/b");
    assert_eq!(cover_cache_dir_in(None), "/tmp/musico/covers");
    assert_eq!(cover_cache_dir_in(Some("/c".to_string())), "/c/musico/covers");
    assert!(get_cover_path("song-1").ends_with("/musico/covers/song-1.jpg"));
}

#[test]
fn settings_path_under_config_dir() {
    assert_eq!(settings_path_from(Some("/c".to_string())), Some("/c/musico/settings.json".to_string()));
    assert_eq!(settings_path_from(Some("/c/".to_string())), Some("/c/musico/settings.json".to_string()));
    assert_eq!(settings_path_from(None), None);
}

#[test]
fn sleep_timer_status_and_display() {
    let t = SleepTimer::new(1);
    assert_eq!(t.total_minutes(), 1);
    assert!(matches!(t.status_after(0), TimerStatus::Active { remaining_ms: 60_000 }));
    assert!(matches!(t.status_after(45_000), TimerStatus::Fading { volume_permille: 500, remaining_ms: 15_000 }));
    assert!(matches!(t.status_after(60_000), TimerStatus::Expired));
    assert_eq!(t.remaining_display_after(0), "01:00");
    assert_eq!(t.remaining_display_after(55_500), "00:04");
    assert_eq!(t.remaining_display_after(90_000), "00:00");
    assert!(matches!(t.tick(), TimerStatus::Active { .. }));
    assert_eq!(t.remaining_display(), "01:00");
    let short = SleepTimer::new(0);
    assert!(matches!(short.status_after(0), TimerStatus::Expired));
    let p = timer_presets();
    assert_eq!(p.len(), 6);
    assert_eq!(p[3], (60, "1 hour"));
}

#[test]
fn versions_and_releases() {
    assert_eq!(parse_version("1.2.3"), (1, 2, 3));
    assert_eq!(parse_version("2.x"), (2, 0, 0));
    assert!(is_newer("1.10.0", "1.9.9"));
    assert!(!is_newer("1.2.3", "1.2.3"));
    assert!(!is_newer("1.2", "1.2.1"));
    assert_eq!(tag_version("v1.4.0"), "1.4.0");
    assert!(is_linux_x86_asset("musico-linux-x86_64.tar.gz"));
    assert!(is_linux_x86_asset("musico_linux_amd64"));
    assert!(!is_linux_x86_asset("musico-windows-x86_64.exe"));

    assert_eq!(evaluate_release(None, "1.0.0", None), Err(ReleaseError::MissingTag));
    assert_eq!(evaluate_release(Some("v0.9.0".to_string()), "1.0.0", None), Ok(None));
    assert_eq!(evaluate_release(Some("v2.0.0".to_string()), "1.0.0", None), Err(ReleaseError::MissingAssets));
    let assets = vec![
        ReleaseAsset { name: Some("musico-macos".to_string()), download_url: Some("u0".to_string()) },
        ReleaseAsset { name: Some("musico-linux-x86_64".to_string()), download_url: Some("u1".to_string()) },
    ];
    assert_eq!(
        evaluate_release(Some("v2.0.0".to_string()), "1.0.0", Some(assets)),
        Ok(Some(("2.0.0".to_string(), "u1".to_string())))
    );
    let none = vec![ReleaseAsset { name: Some("musico-macos".to_string()), download_url: Some("u0".to_string()) }];
    assert_eq!(evaluate_release(Some("v2.0.0".to_string()), "1.0.0", Some(none)), Err(ReleaseError::NoLinuxBinary));
    assert_eq!(ReleaseError::MissingTag.message(), "Missing tag_name in release");
    assert_eq!(ReleaseError::MissingAssets.message(), "Missing assets in release");
}

#[test]
fn lyrics_kinds() {
    match lyrics_from_content("[00:01.5]a\n[00:00.25]b") {
        Lyrics::Synced(lines) => {
            assert_eq!(lines.len(), 2);
            assert_eq!(lines[0].time_ms, 250);
            assert_eq!(lines[0].text, "b");
            assert_eq!(lines[1].time_ms, 1500);
        },
        _ => panic!("expected synced lyrics"),
    }
    assert!(matches!(lyrics_from_content("just words"), Lyrics::Unsynced(t) if t == "just words"));
    assert!(matches!(lyrics_from_content("  \n "), Lyrics::NoLyrics));
    assert!(parse_lrc("[ar:Someone]\nno tag").is_empty());
}

#[test]
fn volume_clamp_and_frame_time() {
    assert_eq!(clamp_volume(-3), 0);
    assert_eq!(clamp_volume(1500), 1000);
    assert_eq!(clamp_volume(750), 750);
    assert_eq!(frames_to_millis(44_100, 44_100), 1000);
    assert_eq!(frames_to_millis(22_050, 44_100), 500);
}

#[test]
fn engine_decisions() {
    let mut st = PlaybackState::default();
    let (phase, actions) = step(&mut st, EnginePhase::Idle, PlaybackCommand::Play(song("a")));
    assert_eq!(phase, EnginePhase::Idle);
    assert!(matches!(&actions[0], EngineAction::StartSong(s) if s.id == "a"));

    st.status = PlaybackStatus::Playing;
    st.position_ms = 700;
    let (phase, actions) = step(&mut st, EnginePhase::Playing, PlaybackCommand::Pause);
    assert_eq!(phase, EnginePhase::Paused);
    assert_eq!(st.status, PlaybackStatus::Paused);
    assert!(matches!(actions[0], EngineAction::Emit(PlaybackEvent::Paused { position_ms: 700 })));

    let (phase, actions) = step(&mut st, EnginePhase::Paused, PlaybackCommand::SetVolume(400));
    assert_eq!(phase, EnginePhase::Paused);
    assert_eq!(st.volume_permille, 400);
    assert!(!actions.is_empty());

    let (phase, _) = step(&mut st, EnginePhase::Paused, PlaybackCommand::Resume);
    assert_eq!(phase, EnginePhase::Playing);
    assert_eq!(st.status, PlaybackStatus::Playing);

    let (phase, actions) = step(&mut st, EnginePhase::Playing, PlaybackCommand::Stop);
    assert_eq!(phase, EnginePhase::Idle);
    assert_eq!(st.status, PlaybackStatus::Stopped);
    assert!(matches!(actions[0], EngineAction::Emit(PlaybackEvent::Stopped)));
}

#[test]
fn seek_outcomes() {
    let mut st = PlaybackState::default();
    st.position_ms = 10;
    let acts = seek_done(&mut st, 5_000, Ok(()));
    assert_eq!(acts.len(), 2);
    assert!(matches!(acts[0], EngineAction::FlushOutput));
    assert!(matches!(acts[1], EngineAction::Emit(PlaybackEvent::Seeked { position_ms: 5_000 })));
    assert_eq!(st.position_ms, 5_000);
    let acts = seek_done(&mut st, 9_000, Err("bad".to_string()));
    assert_eq!(acts.len(), 1);
    assert!(matches!(&acts[0], EngineAction::Emit(PlaybackEvent::Error(m)) if m == "bad"));
    assert_eq!(st.position_ms, 5_000);
}

#[test]
fn channel_adaptation() {
    assert_eq!(adapt_channels(&[1, 2, 3], 1, 2), vec![1, 1, 2, 2, 3, 3]);
    assert_eq!(adapt_channels(&[1, 2, 3, 4, 5], 2, 1), vec![1, 3]);
}

#[test]
fn crossfade_mixer_windows() {
    let cfg = CrossfadeConfig { duration_ms: 1000, curve: CrossfadeCurve::Linear, enabled: true };
    let mut m: CrossfadeMixer<f32> = CrossfadeMixer::new(cfg);
    assert!(!m.is_active());
    m.begin_crossfade(vec![0.5; 8], 4, 2);
    assert!(m.is_active());
    let w = m.start_mix(5).expect("a window");
    assert_eq!((w.start, w.total, w.len), (0, 8, 5));
    assert_eq!(m.finish_mix(w.len), 5);
    let w2 = m.start_mix(10).expect("a window");
    assert_eq!((w2.start, w2.len), (5, 3));
    m.finish_mix(w2.len);
    assert!(!m.is_active());
    assert!(m.take_remaining().is_empty());
    let mut off: CrossfadeMixer<f32> = CrossfadeMixer::new(CrossfadeConfig::default());
    off.begin_crossfade(vec![1.0, 2.0], 44_100, 2);
    assert!(!off.is_active());
    assert_eq!(off.take_remaining(), vec![1.0, 2.0]);
}

#[test]
fn window_layouts() {
    assert_eq!(layout_for(380), Layout::Compact);
    assert_eq!(layout_for(699), Layout::Compact);
    assert_eq!(layout_for(700), Layout::Standard);
    assert_eq!(layout_for(1100), Layout::Standard);
    assert_eq!(layout_for(1101), Layout::Wide);
}

#[test]
fn engine_volume_is_clamped_and_applied_while_idle() {
    let mut st = PlaybackState::default();
    let (phase, actions) = step(&mut st, EnginePhase::Idle, PlaybackCommand::SetVolume(2000));
    assert_eq!(phase, EnginePhase::Idle);
    assert_eq!(st.volume_permille, 1000);
    assert!(matches!(actions[0], EngineAction::SetOutputVolume(1000)));
    assert!(matches!(actions[1], EngineAction::Emit(PlaybackEvent::VolumeChanged(1000))));
    let (_, actions) = step(&mut st, EnginePhase::Idle, PlaybackCommand::Mute);
    assert!(st.muted);
    assert!(matches!(actions[0], EngineAction::SetOutputMuted(true)));
    let (_, _) = step(&mut st, EnginePhase::Playing, PlaybackCommand::SetVolume(750));
    assert_eq!(st.volume_permille, 750);
}

#[test]
fn sleep_timer_shows_two_digit_minutes() {
    let t = SleepTimer::new(5);
    assert_eq!(t.remaining_display_after(0), "05:00");
    assert_eq!(t.remaining_display_after(1_000), "04:59");
    assert_eq!(t.remaining_display_after(300_000), "00:00");
    let t = SleepTimer::new(90);
    assert_eq!(t.remaining_display_after(0), "90:00");
}

#[test]
fn lrc_timestamps_take_every_float_form() {
    let l = parse_lrc("[0:1.5e1]a\n[1e0:0]b\n[0:2E+1]c\n[0:25e-1]d\n[00000000000000001:00]e\n[0:.5]f\n[0:7.]g");
    let times: Vec<i64> = l.iter().map(|x| x.time_ms).collect();
    assert_eq!(times, vec![500, 2_500, 7_000, 15_000, 20_000, 60_000, 60_000]);
    assert!(parse_lrc("[0:1e]x\n[0:e5]y\n[0:1e+]z\n[0:.]w\n[0:1.2.3]v").is_empty());
}

#[test]
fn lrc_huge_timestamps_are_held() {
    let l = parse_lrc("[0:1e30]late\n[0:1e-30]early");
    assert_eq!(l.len(), 2);
    assert_eq!(l[0].time_ms, 0);
    assert_eq!(l[1].time_ms, 150_000_000_000_000_000);
    let l = parse_lrc("[0:1e14]a\n[0:2e14]b");
    assert_eq!(l[0].time_ms, 100_000_000_000_000_000);
    assert_eq!(l[1].time_ms, 150_000_000_000_000_000);
}

#[test]
fn lrc_infinite_and_nan_timestamps_are_kept() {
    let l = parse_lrc("[0:inf]up\n[-INF:0]down\n[0:NaN]odd\n[0:Infinity]far\n[0:1]one");
    assert_eq!(l.len(), 5);
    assert_eq!(l[0].text, "down");
    assert_eq!(l[0].time_ms, -150_000_000_000_000_000 * 60);
    assert_eq!(l[1].text, "one");
    assert_eq!(l[1].time_ms, 1_000);
    assert!(l[2..].iter().all(|x| x.time_ms == 150_000_000_000_000_000));
    assert!(parse_lrc("[0:infx]a\n[0:na]b\n[0:in]c").is_empty());
}

#[test]
fn mute_toggle_sends_the_opposite_command() {
    let mut st = PlaybackState::default();
    assert!(matches!(musico::playback::toggle_mute_command(&st), PlaybackCommand::Mute));
    st.muted = true;
    assert!(matches!(musico::playback::toggle_mute_command(&st), PlaybackCommand::Unmute));
}

#[test]
fn release_status_errors() {
    assert_eq!(status_error(404), Some(StatusError::NoReleases));
    assert_eq!(status_error(200), None);
    assert_eq!(status_error(204), None);
    assert_eq!(status_error(500), Some(StatusError::Failed(500)));
    assert_eq!(status_error(301), Some(StatusError::Failed(301)));
    assert_eq!(StatusError::NoReleases.message("Not Found"), "No releases found on GitHub");
    assert_eq!(StatusError::Failed(503).message("Service Unavailable"), "GitHub API returned 503 Service Unavailable");
}

#[test]
fn cover_path_under_given_cache_dir() {
    assert_eq!(cover_path_for(Some("/c".to_string()), "s1"), "/c/musico/covers/s1.jpg");
    assert_eq!(cover_path_for(None, "s1"), "/tmp/musico/covers/s1.jpg");
    assert_ne!(cover_path_for(Some("/c".to_string()), "s1"), cover_path_for(Some("/c".to_string()), "s2"));
}
