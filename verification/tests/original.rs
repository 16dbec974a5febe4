use musico::lyrics::{current_line_index, parse_lrc, LrcLine};
use musico::playback::{clamp_volume, step, EngineAction, EnginePhase, PlaybackCommand, PlaybackState, PlaybackStatus};
use musico::queue::PlaybackQueue;
use musico::song::SongInfo;
use std::time::Instant;

fn song(id: &str, path: &str, title: &str, artist: &str, album: &str, secs: u64) -> SongInfo {
    SongInfo {
        id: id.to_string(),
        file_path: path.to_string(),
        title: title.to_string(),
        artist: artist.to_string(),
        album: album.to_string(),
        duration_ms: secs * 1000,
        cover_art: None,
    }
}

#[test]
fn set_volume_clamps_correctly() {
    let clamped_high = 2.0f32.clamp(0.0, 1.0);
    assert!((clamped_high - 1.0).abs() < f32::EPSILON);

    let clamped_low = (-0.5f32).clamp(0.0, 1.0);
    assert!(clamped_low.abs() < f32::EPSILON);

    let clamped_normal = 0.75f32.clamp(0.0, 1.0);
    assert!((clamped_normal - 0.75).abs() < f32::EPSILON);

    // The same three volumes in thousandths, through the library.
    assert_eq!(clamp_volume(2000), 1000);
    assert_eq!(clamp_volume(-500), 0);
    assert_eq!(clamp_volume(750), 750);
    let mut st = PlaybackState::default();
    let (_, acts) = step(&mut st, EnginePhase::Playing, PlaybackCommand::SetVolume(2000));
    assert!(matches!(acts[0], EngineAction::SetOutputVolume(1000)));
    assert_eq!(st.volume_permille, 1000);
}

#[test]
fn queue_next_returns_none_on_empty() {
    let mut q = PlaybackQueue::new();
    assert!(q.next().is_none());
    assert!(q.is_empty());
    assert_eq!(q.len(), 0);
}

#[test]
fn queue_previous_after_next() {
    let mut q = PlaybackQueue::new();
    let song1 = song("1", "/test/song1.flac", "Song One", "Artist", "Album", 180);
    let song2 = song("2", "/test/song2.flac", "Song Two", "Artist", "Album", 200);

    q.push_back(song1.clone());
    q.push_back(song2.clone());

    let first = q.next().expect("should have a song");
    assert_eq!(first.id, "1");

    let second = q.next().expect("should have a song");
    assert_eq!(second.id, "2");

    let prev = q.previous().expect("should have previous");
    assert_eq!(prev.id, "1");
}

#[test]
fn playback_state_elapsed_listen_secs() {
    let mut st = PlaybackState::default();
    assert_eq!(st.elapsed_listen_secs(), 0);

    st.listened_secs = 10;
    assert_eq!(st.elapsed_listen_secs(), 10);

    st.status = PlaybackStatus::Playing;
    st.listen_start = Some(Instant::now());
    let elapsed = st.elapsed_listen_secs();
    assert!(elapsed >= 10 && elapsed <= 11);
}

#[test]
fn queue_push_front_plays_next() {
    let mut q = PlaybackQueue::new();
    let song_a = song("a", "a.flac", "A", "", "", 100);
    let song_b = song("b", "b.flac", "B", "", "", 100);

    q.push_back(song_a);
    q.push_front(song_b);

    let next = q.next().expect("should have a song");
    assert_eq!(next.id, "b");
}

#[test]
fn test_parse_lrc() {
    let content = "[00:12.34] Hello world\n[01:00.00] Second line\n";
    let lines = parse_lrc(content);
    assert_eq!(lines.len(), 2);
    assert!((lines[0].time_ms - 12340).abs() < 10);
    assert_eq!(lines[0].text, "Hello world");
    assert!((lines[1].time_ms - 60000).abs() < 10);
}

#[test]
fn test_current_line() {
    let lines = vec![
        LrcLine { time_ms: 0, text: "First".into() },
        LrcLine { time_ms: 10_000, text: "Second".into() },
        LrcLine { time_ms: 20_000, text: "Third".into() },
    ];
    assert_eq!(current_line_index(&lines, 5_000), Some(0));
    assert_eq!(current_line_index(&lines, 15_000), Some(1));
    assert_eq!(current_line_index(&lines, 25_000), Some(2));
}
