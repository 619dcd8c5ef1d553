use soundverse::model::{song_ids, ActivePlaylist, ForeignKey, Playlist, Song};
use soundverse::resolver::{calculate_current_song_timestamp, total_duration, ResolvedPosition};

fn key(id: &str) -> ForeignKey {
    ForeignKey { id: id.to_string(), collection_id: "Streamer".to_string() }
}

fn song(id: &str, duration: u64) -> Song {
    Song {
        id: id.to_string(),
        title: format!("title {}", id),
        artist: "artist".to_string(),
        filename: format!("{}.mp3", id),
        duration,
        owner: key("owner"),
    }
}

fn active(start: u64) -> ActivePlaylist {
    ActivePlaylist {
        id: "active".to_string(),
        playlist: key("p1"),
        playing: true,
        owner: key("owner"),
        start_timestamp: start,
    }
}

fn songs(durations: &[(&str, u64)]) -> Vec<Song> {
    durations.iter().map(|(id, d)| song(id, *d)).collect()
}

fn assert_at(r: Option<ResolvedPosition>, index: usize, id: &str, offset: u64) {
    let p = r.expect("a song should be playing");
    assert_eq!(p.index, index);
    assert_eq!(p.song_id, id);
    assert_eq!(p.filename, format!("{}.mp3", id));
    assert_eq!(p.offset, offset);
}

#[test]
fn two_song_example() {
    let s = songs(&[("a", 100), ("b", 50)]);
    let a = active(1000);
    assert_at(calculate_current_song_timestamp(&a, &s, 1000), 0, "a", 0);
    assert_at(calculate_current_song_timestamp(&a, &s, 1090), 0, "a", 90);
    assert_at(calculate_current_song_timestamp(&a, &s, 1100), 1, "b", 0);
    assert_at(calculate_current_song_timestamp(&a, &s, 1149), 1, "b", 49);
    assert!(calculate_current_song_timestamp(&a, &s, 1150).is_none());
    assert!(calculate_current_song_timestamp(&a, &s, 1200).is_none());
}

#[test]
fn first_song_offset_is_time_since_start() {
    let s = songs(&[("x", 30), ("y", 40)]);
    let a = active(500);
    assert_at(calculate_current_song_timestamp(&a, &s, 510), 0, "x", 10);
    assert_at(calculate_current_song_timestamp(&a, &s, 529), 0, "x", 29);
}

#[test]
fn boundary_belongs_to_next_song() {
    let s = songs(&[("x", 10), ("y", 20), ("z", 30)]);
    let a = active(0);
    assert_at(calculate_current_song_timestamp(&a, &s, 10), 1, "y", 0);
    assert_at(calculate_current_song_timestamp(&a, &s, 30), 2, "z", 0);
}

#[test]
fn nothing_after_the_end() {
    let s = songs(&[("x", 10), ("y", 20)]);
    let a = active(100);
    assert!(calculate_current_song_timestamp(&a, &s, 130).is_none());
    assert!(calculate_current_song_timestamp(&a, &s, 10_000).is_none());
    assert!(calculate_current_song_timestamp(&a, &s, u64::MAX).is_none());
}

#[test]
fn empty_playlist_plays_nothing() {
    let s: Vec<Song> = Vec::new();
    let a = active(100);
    assert!(calculate_current_song_timestamp(&a, &s, 0).is_none());
    assert!(calculate_current_song_timestamp(&a, &s, 100).is_none());
    assert!(calculate_current_song_timestamp(&a, &s, 1000).is_none());
}

#[test]
fn before_start_clamps_to_first_song() {
    let s = songs(&[("x", 10), ("y", 20)]);
    let a = active(1000);
    assert_at(calculate_current_song_timestamp(&a, &s, 999), 0, "x", 0);
    assert_at(calculate_current_song_timestamp(&a, &s, 0), 0, "x", 0);
}

#[test]
fn zero_duration_songs_are_skipped() {
    let a = active(50);
    let s = songs(&[("x", 0), ("y", 5)]);
    assert_at(calculate_current_song_timestamp(&a, &s, 50), 1, "y", 0);
    assert_at(calculate_current_song_timestamp(&a, &s, 10), 1, "y", 0);
    let only = songs(&[("x", 0)]);
    assert!(calculate_current_song_timestamp(&a, &only, 50).is_none());
}

#[test]
fn total_is_the_sum_of_durations() {
    assert_eq!(total_duration(&songs(&[("a", 100), ("b", 50)])), 150);
    assert_eq!(total_duration(&Vec::new()), 0);
    assert_eq!(total_duration(&songs(&[("a", 0), ("b", 0)])), 0);
    let big = songs(&[("a", u64::MAX), ("b", u64::MAX), ("c", 1)]);
    assert_eq!(total_duration(&big), 2 * (u64::MAX as u128) + 1);
}

#[test]
fn ids_keep_playlist_order() {
    let s = songs(&[("c", 1), ("a", 2), ("b", 3)]);
    assert_eq!(song_ids(&s), vec!["c".to_string(), "a".to_string(), "b".to_string()]);
    let p = Playlist { id: "p".to_string(), songs: vec![key("s2"), key("s1")], owner: key("o") };
    assert_eq!(p.song_ids(), vec!["s2".to_string(), "s1".to_string()]);
}
