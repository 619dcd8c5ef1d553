use vstd::prelude::*;
use crate::model::{ActivePlaylist, Song};

verus! {

/// Seconds since `start` at the instant `now`; an instant before `start`
/// counts as the start itself.
pub open spec fn elapsed(start: u64, now: u64) -> nat {
    if now >= start {
        (now - start) as nat
    } else {
        0
    }
}

/// Sum of the durations of `songs`.
pub open spec fn total_of(songs: Seq<Song>) -> nat
    decreases songs.len(),
{
    if songs.len() == 0 {
        0
    } else {
        songs[0].duration as nat + total_of(songs.drop_first())
    }
}

/// Shifts the index of a located position by `n` songs.
pub open spec fn shifted(p: Option<(nat, nat)>, n: nat) -> Option<(nat, nat)> {
    match p {
        Option::Some((k, off)) => Option::Some(((k + n) as nat, off)),
        Option::None => Option::None,
    }
}

/// The song (by index) and the offset into it that `e` seconds of playback
/// reach: songs play one after the other, a song of duration `d` covers the
/// offsets `0 .. d`, and nothing plays once all songs are done.
pub open spec fn locate(songs: Seq<Song>, e: nat) -> Option<(nat, nat)>
    decreases songs.len(),
{
    if songs.len() == 0 {
        Option::None
    } else if e < songs[0].duration {
        Option::Some((0, e))
    } else {
        shifted(locate(songs.drop_first(), (e - songs[0].duration) as nat), 1)
    }
}

/// The position that plays at `now` for a playlist started at `start`.
pub open spec fn resolution(songs: Seq<Song>, start: u64, now: u64) -> Option<(nat, nat)> {
    locate(songs, elapsed(start, now))
}

/// The song that plays at some instant, and how far into it playback is.
pub struct ResolvedPosition {
    /// Index of the song in the playlist.
    pub index: usize,
    pub song_id: String,
    pub filename: String,
    /// Seconds since the song began.
    pub offset: u64,
}

/// `r` reports the located position `p` of `songs`.
pub open spec fn reports(r: Option<ResolvedPosition>, songs: Seq<Song>, p: Option<(nat, nat)>) -> bool {
    match p {
        Option::None => r is None,
        Option::Some((k, off)) => match r {
            Option::None => false,
            Option::Some(pos) => {
                &&& pos.index == k
                &&& pos.offset == off
                &&& k < songs.len()
                &&& pos.song_id@ == songs[k as int].id@
                &&& pos.filename@ == songs[k as int].filename@
            },
        },
    }
}

proof fn lemma_total_bound(songs: Seq<Song>)
    ensures
        total_of(songs) <= songs.len() * 0xffff_ffff_ffff_ffffnat,
    decreases songs.len(),
{
    if songs.len() > 0 {
        lemma_total_bound(songs.drop_first());
    }
}

/// Sum of the durations of `songs`, in seconds.
pub fn total_duration(songs: &Vec<Song>) -> (r: u128)
    ensures
        r == total_of(songs@),
{
    let n: usize = songs.len();
    proof {
        lemma_total_bound(songs@);
        assert(songs@.len() * 0xffff_ffff_ffff_ffffnat <= 0xffff_ffff_ffff_ffffnat * 0xffff_ffff_ffff_ffffnat) by (nonlinear_arith)
            requires
                songs@.len() <= 0xffff_ffff_ffff_ffffnat,
        ;
        assert(songs@.subrange(0, songs@.len() as int) =~= songs@);
    }
    let mut acc: u128 = 0;
    let mut i: usize = 0;
    while i < songs.len()
        invariant
            i <= songs@.len(),
            acc + total_of(songs@.subrange(i as int, songs@.len() as int)) == total_of(songs@),
            total_of(songs@) <= 0xffff_ffff_ffff_ffffnat * 0xffff_ffff_ffff_ffffnat,
        decreases songs@.len() - i,
    {
        let ghost rest = songs@.subrange(i as int, songs@.len() as int);
        assert(rest[0] == songs@[i as int]);
        assert(rest.drop_first() =~= songs@.subrange(i + 1, songs@.len() as int));
        acc = acc + songs[i].duration as u128;
        i = i + 1;
    }
    acc
}

/// Past the songs before index `j`, locating continues in the songs from `j`
/// on, with their durations taken off.
pub proof fn lemma_locate_skip(songs: Seq<Song>, j: nat, e: nat)
    requires
        j <= songs.len(),
        e >= total_of(songs.take(j as int)),
    ensures
        locate(songs, e) == shifted(locate(songs.skip(j as int), (e - total_of(songs.take(j as int))) as nat), j),
    decreases j,
{
    if j == 0 {
        assert(songs.skip(0) =~= songs);
        assert(total_of(songs.take(0)) == 0);
        assert(shifted(locate(songs, e), 0) == locate(songs, e));
    } else {
        let rest = songs.drop_first();
        assert(songs.take(j as int).drop_first() =~= rest.take(j - 1));
        assert(rest.skip(j - 1) =~= songs.skip(j as int));
        lemma_locate_skip(rest, (j - 1) as nat, (e - songs[0].duration) as nat);
        let inner = locate(songs.skip(j as int), (e - total_of(songs.take(j as int))) as nat);
        assert(shifted(shifted(inner, (j - 1) as nat), 1) == shifted(inner, j));
    }
}

/// A located position lies inside its song: the songs before it take up the
/// elapsed time but for the offset, and the offset is short of the song's
/// duration.
pub proof fn lemma_located_within_song(songs: Seq<Song>, e: nat)
    ensures
        match locate(songs, e) {
            Option::Some((k, off)) => {
                &&& k < songs.len()
                &&& total_of(songs.take(k as int)) + off == e
                &&& off < songs[k as int].duration
            },
            Option::None => e >= total_of(songs),
        },
    decreases songs.len(),
{
    if songs.len() > 0 {
        assert(songs.take(0).len() == 0);
        if e >= songs[0].duration {
            let rest = songs.drop_first();
            lemma_located_within_song(rest, (e - songs[0].duration) as nat);
            match locate(rest, (e - songs[0].duration) as nat) {
                Option::Some((k, off)) => {
                    assert(songs.take((k + 1) as int).drop_first() =~= rest.take(k as int));
                },
                Option::None => {},
            }
        }
    }
}

/// A listener who tunes in while the first song plays hears it at the
/// number of seconds since the playlist started.
pub proof fn lemma_first_song_from_start(songs: Seq<Song>, start: u64, now: u64)
    requires
        songs.len() > 0,
        start <= now,
        now < start + songs[0].duration,
    ensures
        resolution(songs, start, now) == Option::Some((0nat, (now - start) as nat)),
{
}

/// At the instant the songs `0 ..= k` are done, song `k + 1` starts at offset
/// zero (if it lasts at all).
pub proof fn lemma_boundary_starts_next(songs: Seq<Song>, start: u64, now: u64, k: nat)
    requires
        k + 1 < songs.len(),
        now == start + total_of(songs.take((k + 1) as int)),
        songs[(k + 1) as int].duration > 0,
    ensures
        resolution(songs, start, now) == Option::Some(((k + 1) as nat, 0nat)),
{
    let e = elapsed(start, now);
    lemma_locate_skip(songs, (k + 1) as nat, e);
    let rest = songs.skip((k + 1) as int);
    assert(rest[0] == songs[(k + 1) as int]);
    assert(locate(rest, 0) == Option::Some((0nat, 0nat)));
}

/// Once all songs are done, nothing plays.
pub proof fn lemma_nothing_after_end(songs: Seq<Song>, start: u64, now: u64)
    requires
        now >= start + total_of(songs),
    ensures
        resolution(songs, start, now) is None,
{
    let e = elapsed(start, now);
    assert(songs.take(songs.len() as int) =~= songs);
    lemma_locate_skip(songs, songs.len(), e);
    assert(songs.skip(songs.len() as int).len() == 0);
}

/// An empty playlist never has a song playing.
pub proof fn lemma_empty_plays_nothing(songs: Seq<Song>, start: u64, now: u64)
    requires
        songs.len() == 0,
    ensures
        resolution(songs, start, now) is None,
{
}

/// Before the playlist starts, its first song is reported at offset zero.
pub proof fn lemma_before_start_first_song(songs: Seq<Song>, start: u64, now: u64)
    requires
        now < start,
        songs.len() > 0,
        songs[0].duration > 0,
    ensures
        resolution(songs, start, now) == Option::Some((0nat, 0nat)),
{
}

/// Finds the song of `songs` that plays `now` (Unix seconds) for the playlist
/// `playlist`, and the offset into it.
pub fn calculate_current_song_timestamp(playlist: &ActivePlaylist, songs: &Vec<Song>, now: u64) -> (r: Option<ResolvedPosition>)
    ensures
        reports(r, songs@, resolution(songs@, playlist.start_timestamp, now)),
{
    let mut remaining: u64 = if now >= playlist.start_timestamp {
        now - playlist.start_timestamp
    } else {
        0
    };
    let ghost e = elapsed(playlist.start_timestamp, now);
    let mut i: usize = 0;
    assert(songs@.subrange(0, songs@.len() as int) =~= songs@);
    assert(shifted(locate(songs@, e), 0) == locate(songs@, e));
    while i < songs.len()
        invariant
            i <= songs@.len(),
            e == elapsed(playlist.start_timestamp, now),
            locate(songs@, e) == shifted(locate(songs@.subrange(i as int, songs@.len() as int), remaining as nat), i as nat),
        decreases songs@.len() - i,
    {
        let ghost rest = songs@.subrange(i as int, songs@.len() as int);
        assert(rest[0] == songs@[i as int]);
        if remaining < songs[i].duration {
            assert(locate(rest, remaining as nat) == Option::Some((0nat, remaining as nat)));
            return Option::Some(ResolvedPosition {
                index: i,
                song_id: songs[i].id.clone(),
                filename: songs[i].filename.clone(),
                offset: remaining,
            });
        }
        assert(rest.drop_first() =~= songs@.subrange(i + 1, songs@.len() as int));
        remaining = remaining - songs[i].duration;
        i = i + 1;
    }
    Option::None
}

} // verus!
