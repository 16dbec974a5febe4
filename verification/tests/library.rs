use musico::catalog::{catalog_song, first_recommendations, remove_from_queue, search_catalog};
use musico::playlists::{builtin_playlists, eq_ignore_case, FilterField, FilterOp, FilterRule, SmartPlaylist};
use musico::scanner::is_audio_file;
use musico::session::{count_from_bytes, count_to_bytes, remember_song};
use musico::song::SongRecord;
use musico::stats::{compute_stats, compute_stats_for_period, compute_streak, get_stats, PlayRecord};

fn rec(id: &str, title: &str, artist: &str, album: &str, secs: u32) -> SongRecord {
    SongRecord {
        id: id.to_string(),
        file_path: format!("/m/{id}.mp3"),
        title: title.to_string(),
        artist: artist.to_string(),
        album: album.to_string(),
        duration_secs: secs,
    }
}

fn play(id: &str, day: i64, secs: u32, skipped: bool) -> PlayRecord {
    PlayRecord { song_id: id.to_string(), started_at: day * 86_400 + 3_600, listened_secs: secs, was_skipped: skipped }
}

#[test]
fn audio_files_by_extension() {
    assert!(is_audio_file("/music/a/song.mp3"));
    assert!(is_audio_file("/music/a/SONG.FLAC"));
    assert!(is_audio_file("track.M4b"));
    assert!(is_audio_file("dir/..opus"));
    assert!(!is_audio_file("/music/cover.jpg"));
    assert!(!is_audio_file("/music/.mp3"));
    assert!(!is_audio_file("/music/noext"));
    assert!(!is_audio_file("/music/song.mp3/.."));
    assert!(!is_audio_file(""));
    assert!(!is_audio_file("/"));
    assert!(is_audio_file("/music/song.ogg/"));
    assert!(is_audio_file("/music/song.wav/."));
    assert!(!is_audio_file("/music/archive.mp3.zip"));
}

#[test]
fn rules_match_text_and_duration() {
    let r = rec("1", "Blue Moon", "Ann Lee", "Nights", 200);
    let contains = FilterRule { field: FilterField::Title, op: FilterOp::Contains("MOON".to_string()) };
    assert!(contains.matches(&r));
    let equals = FilterRule { field: FilterField::Artist, op: FilterOp::Equals("ann lee".to_string()) };
    assert!(equals.matches(&r));
    let not_equal = FilterRule { field: FilterField::Album, op: FilterOp::Equals("night".to_string()) };
    assert!(!not_equal.matches(&r));
    let longer = FilterRule { field: FilterField::DurationSecs, op: FilterOp::GreaterThan(199_500) };
    assert!(longer.matches(&r));
    let shorter = FilterRule { field: FilterField::DurationSecs, op: FilterOp::LessThan(200_000) };
    assert!(!shorter.matches(&r));
    let mixed = FilterRule { field: FilterField::DurationSecs, op: FilterOp::Contains("x".to_string()) };
    assert!(mixed.matches(&r));
    assert!(eq_ignore_case("ÄbC", "Äbc"));
    assert!(!eq_ignore_case("äbc", "Äbc"));
}

#[test]
fn playlist_resolves_sorted_and_limited() {
    let lib = vec![
        rec("1", "C", "Zed", "x", 100),
        rec("2", "A", "Amy", "y", 400),
        rec("3", "B", "Amy", "z", 250),
        rec("4", "D", "Bob", "w", 90),
    ];
    let mut p = SmartPlaylist::new("Mine");
    assert_eq!(p.id.len(), 36);
    assert_eq!(p.sort_by, "title");
    let all = p.resolve(&lib);
    let titles: Vec<&str> = all.iter().map(|s| s.title.as_str()).collect();
    assert_eq!(titles, vec!["A", "B", "C", "D"]);

    p.sort_by = "artist".to_string();
    let by_artist: Vec<String> = p.resolve(&lib).into_iter().map(|s| s.id).collect();
    assert_eq!(by_artist, vec!["2", "3", "4", "1"]);

    p.sort_by = "duration".to_string();
    p.sort_ascending = false;
    p.max_songs = 2;
    let longest: Vec<String> = p.resolve(&lib).into_iter().map(|s| s.id).collect();
    assert_eq!(longest, vec!["2", "3"]);

    p.rules.push(FilterRule { field: FilterField::Artist, op: FilterOp::Contains("amy".to_string()) });
    p.max_songs = 0;
    assert!(p.matches(&lib[1]));
    assert!(!p.matches(&lib[0]));
    assert_eq!(p.resolve(&lib).len(), 2);
}

#[test]
fn builtin_playlists_split_by_length() {
    let lib = vec![rec("1", "Short", "a", "b", 120), rec("2", "Mid", "a", "b", 240), rec("3", "Long", "a", "b", 400)];
    let b = builtin_playlists();
    assert_eq!(b.len(), 2);
    assert_eq!(b[0].name, "Short Songs");
    let short: Vec<String> = b[0].resolve(&lib).into_iter().map(|s| s.id).collect();
    assert_eq!(short, vec!["1"]);
    assert_eq!(b[1].name, "Long Jams");
    let long: Vec<String> = b[1].resolve(&lib).into_iter().map(|s| s.id).collect();
    assert_eq!(long, vec!["3"]);
}

#[test]
fn m3u_export() {
    let p = SmartPlaylist::new("x");
    let text = p.to_m3u(&[rec("1", "Song", "Band", "Alb", 215)]);
    assert_eq!(text, "#EXTM3U\n#EXTINF:215,Band - Song\n/m/1.mp3");
    assert_eq!(p.to_m3u(&[]), "#EXTM3U");
}

#[test]
fn stats_totals_top_and_days() {
    let plays = vec![
        play("a", 10, 120, false),
        play("b", 10, 30, true),
        play("a", 11, 60, false),
        play("c", 13, 600, false),
        play("b", 13, 10, true),
        play("b", 13, 50, false),
    ];
    let s = compute_stats(&plays, 13);
    assert_eq!(s.total_plays, 6);
    assert_eq!(s.total_listened_secs, 870);
    assert_eq!(s.total_skips, 2);
    assert_eq!(s.top_songs, vec![("b".to_string(), 3), ("a".to_string(), 2), ("c".to_string(), 1)]);
    assert_eq!(s.daily_minutes, vec![(10, 2), (11, 1), (13, 11)]);
    assert_eq!(s.streak_days, 1);
    let s2 = compute_stats(&plays, 11);
    assert_eq!(s2.streak_days, 2);
    let empty = compute_stats(&[], 5);
    assert_eq!(empty.total_plays, 0);
    assert!(empty.top_songs.is_empty());
    assert_eq!(empty.streak_days, 0);
    let now = get_stats(&plays);
    assert_eq!(now.total_plays, 6);
}

#[test]
fn stats_for_a_period() {
    let plays = vec![play("a", 1, 100, false), play("b", 5, 100, true), play("b", 6, 40, false)];
    let s = compute_stats_for_period(&plays, 5 * 86_400);
    assert_eq!(s.total_plays, 2);
    assert_eq!(s.total_skips, 1);
    assert_eq!(s.total_listened_secs, 140);
    assert_eq!(s.top_songs, vec![("b".to_string(), 2)]);
    assert!(s.daily_minutes.is_empty());
}

#[test]
fn top_songs_are_cut_at_twenty() {
    let plays: Vec<PlayRecord> = (0..25).map(|i| play(&format!("s{i}"), 0, 1, false)).collect();
    let s = compute_stats(&plays, 0);
    assert_eq!(s.top_songs.len(), 20);
    assert_eq!(s.top_songs[0].0, "s0");
}

#[test]
fn streak_counts_days_back_from_today() {
    let daily = vec![(5, 3), (7, 1), (8, 0), (9, 2), (10, 4)];
    assert_eq!(compute_streak(&daily, 10), 2);
    assert_eq!(compute_streak(&daily, 8), 0);
    assert_eq!(compute_streak(&daily, 7), 1);
    assert_eq!(compute_streak(&daily, 12), 0);
    assert_eq!(compute_streak(&[], 3), 0);
}

#[test]
fn daily_list_keeps_last_365_days() {
    let plays: Vec<PlayRecord> = (0..400).map(|d| play("a", d, 120, false)).collect();
    let s = compute_stats(&plays, 399);
    assert_eq!(s.daily_minutes.len(), 365);
    assert_eq!(s.daily_minutes[0], (35, 2));
    assert_eq!(s.daily_minutes[364], (399, 2));
    assert_eq!(s.streak_days, 365);
}

#[test]
fn negative_times_count_on_earlier_days() {
    let plays = vec![PlayRecord { song_id: "a".to_string(), started_at: -1, listened_secs: 60, was_skipped: false }];
    let s = compute_stats(&plays, -1);
    assert_eq!(s.daily_minutes, vec![(-1, 1)]);
    assert_eq!(s.streak_days, 1);
}

#[test]
fn session_remembers_last_ten() {
    let mut h: Vec<String> = Vec::new();
    for i in 0..12 {
        remember_song(&mut h, &format!("s{i}"));
    }
    assert_eq!(h.len(), 10);
    assert_eq!(h[0], "s2");
    assert_eq!(h[9], "s11");
}

#[test]
fn song_count_bytes_round_trip() {
    assert_eq!(count_from_bytes(&None), 0);
    assert_eq!(count_from_bytes(&Some(vec![1, 2, 3])), 0);
    assert_eq!(count_from_bytes(&Some(vec![1, 2, 0, 0, 0, 0, 0, 0])), 513);
    assert_eq!(count_to_bytes(513), vec![1, 2, 0, 0, 0, 0, 0, 0]);
    assert_eq!(count_to_bytes(513), 513u64.to_le_bytes().to_vec());
    assert_eq!(count_from_bytes(&Some(count_to_bytes(u64::MAX))), u64::MAX);
}

#[test]
fn catalog_names_songs_after_files() {
    let s = catalog_song("/home/u/Music/Best Of/Queen - Bohemian Rhapsody.MP3", 7).expect("an audio file");
    assert_eq!(s.id, "7");
    assert_eq!(s.artist, "Queen");
    assert_eq!(s.title, "Bohemian Rhapsody");
    assert_eq!(s.album, "Best Of");
    assert_eq!(s.duration_secs, 0);
    let t = catalog_song("track.flac", 1).expect("an audio file");
    assert_eq!(t.artist, "Unknown Artist");
    assert_eq!(t.title, "track");
    assert_eq!(t.album, "Unknown Album");
    let u = catalog_song("/m/./a - b - c.ogg", 2).expect("an audio file");
    assert_eq!((u.artist.as_str(), u.title.as_str(), u.album.as_str()), ("a", "b - c", "m"));
    assert!(catalog_song("/m/song.m4b", 3).is_none());
    assert!(catalog_song("/m/cover.png", 3).is_none());
}

#[test]
fn catalog_search_queue_and_picks() {
    let lib: Vec<SongRecord> = (0..8).map(|i| rec(&i.to_string(), &format!("T{i}"), "A", if i == 3 { "Gold" } else { "x" }, 1)).collect();
    assert_eq!(search_catalog(&lib, "gold").len(), 1);
    assert_eq!(search_catalog(&lib, "t1").len(), 1);
    assert_eq!(search_catalog(&lib, "").len(), 8);
    assert_eq!(first_recommendations(&lib).len(), 6);
    assert_eq!(first_recommendations(&lib[..2].to_vec()).len(), 2);
    let mut q = vec![rec("a", "A", "", "", 1), rec("b", "B", "", "", 1), rec("a", "A2", "", "", 1)];
    remove_from_queue(&mut q, "a");
    assert_eq!(q.len(), 1);
    assert_eq!(q[0].id, "b");
}

#[test]
fn playlist_ids_are_hyphenated_v4_uuids() {
    let mut ids = vec![SmartPlaylist::new("x").id];
    ids.extend(builtin_playlists().into_iter().map(|p| p.id));
    for id in &ids {
        let c: Vec<char> = id.chars().collect();
        assert_eq!(c.len(), 36);
        for (i, ch) in c.iter().enumerate() {
            if [8, 13, 18, 23].contains(&i) {
                assert_eq!(*ch, '-');
            } else {
                assert!(ch.is_ascii_digit() || ('a'..='f').contains(ch));
            }
        }
        assert_eq!(c[14], '4');
        assert!(['8', '9', 'a', 'b'].contains(&c[19]));
    }
    assert_ne!(ids[0], ids[1]);
}
