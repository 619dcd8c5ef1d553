use vstd::prelude::*;
use crate::model::{song_ids, song_ids_of, ActivePlaylist, Song};
use crate::resolver::{
    calculate_current_song_timestamp, reports, resolution, total_duration, total_of,
    ResolvedPosition,
};

verus! {

/// What a listener is told about the active playlist at some instant.
pub struct NowPlayingResponse {
    /// Sum of the durations of the playlist's songs, in seconds.
    pub total_duration: u128,
    /// The instant of the query, in Unix milliseconds.
    pub current_timestamp: u64,
    /// The identifiers of the playlist's songs, in playback order.
    pub song_cids: Vec<String>,
    /// The song playing at that instant, if any.
    pub current_song: Option<ResolvedPosition>,
}

impl NowPlayingResponse {
    pub fn new(
        total_duration: u128,
        current_timestamp: u64,
        song_cids: Vec<String>,
        current_song: Option<ResolvedPosition>,
    ) -> (r: Self)
        ensures
            r.total_duration == total_duration,
            r.current_timestamp == current_timestamp,
            r.song_cids == song_cids,
            r.current_song == current_song,
    {
        NowPlayingResponse { total_duration, current_timestamp, song_cids, current_song }
    }
}

impl Default for NowPlayingResponse {
    /// The answer given when no playlist could be had: all zero and empty.
    fn default() -> (r: Self)
        ensures
            r.total_duration == 0,
            r.current_timestamp == 0,
            r.song_cids@.len() == 0,
            r.current_song is None,
    {
        NowPlayingResponse {
            total_duration: 0,
            current_timestamp: 0,
            song_cids: Vec::new(),
            current_song: Option::None,
        }
    }
}

/// The answer for the query at `now_millis` (Unix milliseconds), given the
/// active playlist and its songs where both could be had.
pub fn now_playing(
    active: &Option<ActivePlaylist>,
    songs: &Option<Vec<Song>>,
    now_millis: u64,
) -> (r: NowPlayingResponse)
    ensures
        match (active, songs) {
            (Option::Some(a), Option::Some(s)) => {
                &&& r.total_duration == total_of(s@)
                &&& r.current_timestamp == now_millis
                &&& r.song_cids@.map_values(|c: String| c@) == song_ids_of(s@)
                &&& reports(r.current_song, s@, resolution(s@, a.start_timestamp, now_millis / 1000))
            },
            _ => {
                &&& r.total_duration == 0
                &&& r.current_timestamp == 0
                &&& r.song_cids@.len() == 0
                &&& r.current_song is None
            },
        },
{
    match (active, songs) {
        (Option::Some(a), Option::Some(s)) => {
            let current_song = calculate_current_song_timestamp(a, s, now_millis / 1000);
            NowPlayingResponse::new(total_duration(s), now_millis, song_ids(s), current_song)
        },
        _ => NowPlayingResponse::default(),
    }
}

} // verus!
