use musico::paths::get_cover_path;
use musico::recommend::{check_library, is_skip, locate_song, positions_not_in, Refusal};
use musico::text::char_is_whitespace;

fn ids(v: &[&str]) -> Vec<String> {
    v.iter().map(|s| s.to_string()).collect()
}

#[test]
fn recommender_needs_three_songs() {
    assert_eq!(check_library(0), Err(Refusal::InsufficientLibrary));
    assert_eq!(check_library(2), Err(Refusal::InsufficientLibrary));
    assert_eq!(check_library(3), Ok(()));
    assert_eq!(check_library(40), Ok(()));
}

#[test]
fn unknown_song_is_not_found() {
    let lib = ids(&["a", "b", "c"]);
    assert_eq!(locate_song(&lib, "b"), Ok(1));
    assert_eq!(locate_song(&lib, "z"), Err(Refusal::NotFound));
    assert_eq!(locate_song(&Vec::new(), "a"), Err(Refusal::NotFound));
}

#[test]
fn current_song_and_session_history_are_excluded() {
    let lib = ids(&["a", "b", "c", "d", "e"]);
    assert_eq!(positions_not_in(&lib, &ids(&["c"])), vec![0, 1, 3, 4]);
    assert_eq!(positions_not_in(&lib, &ids(&["a", "e", "x"])), vec![1, 2, 3]);
    assert_eq!(positions_not_in(&lib, &Vec::new()), vec![0, 1, 2, 3, 4]);
    assert!(positions_not_in(&lib, &lib).is_empty());
}

#[test]
fn listens_under_thirty_percent_are_skips() {
    assert!(is_skip(29, 100));
    assert!(!is_skip(30, 100));
    assert!(!is_skip(200, 100));
    assert!(is_skip(0, 180));
    assert!(is_skip(10, 0));
    assert!(!is_skip(54, 180));
    assert!(is_skip(53, 180));
}

#[test]
fn whitespace_matches_std_for_every_char() {
    for n in 0u32..=0x10ffff {
        if let Some(c) = char::from_u32(n) {
            assert_eq!(char_is_whitespace(c), c.is_whitespace(), "U+{:04X}", n);
        }
    }
}

#[test]
fn cover_paths_differ_per_song_and_sit_in_covers_dir() {
    let a = get_cover_path("song-a");
    let b = get_cover_path("song-b");
    assert_ne!(a, b);
    assert!(a.ends_with("musico/covers/song-a.jpg"));
    assert!(b.ends_with("musico/covers/song-b.jpg"));
}
