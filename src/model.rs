use vstd::prelude::*;

verus! {

/// A reference from one record to another record of the datastore.
pub struct ForeignKey {
    pub id: String,
    pub collection_id: String,
}

/// The owner of a record.
pub type Streamer = ForeignKey;

/// A song of a playlist. Its length is held in whole seconds.
pub struct Song {
    pub id: String,
    pub title: String,
    pub artist: String,
    pub filename: String,
    pub duration: u64,
    pub owner: Streamer,
}

/// A playlist: the ordered references to its songs.
pub struct Playlist {
    pub id: String,
    pub songs: Vec<ForeignKey>,
    pub owner: Streamer,
}

/// The playlist that is playing now, with the second (Unix time) at which its
/// first song started.
pub struct ActivePlaylist {
    pub id: String,
    pub playlist: ForeignKey,
    pub playing: bool,
    pub owner: Streamer,
    pub start_timestamp: u64,
}

/// The identifiers of the given songs, in order.
pub open spec fn song_ids_of(songs: Seq<Song>) -> Seq<Seq<char>> {
    songs.map_values(|s: Song| s.id@)
}

/// The identifiers that the given references point to, in order.
pub open spec fn key_ids_of(keys: Seq<ForeignKey>) -> Seq<Seq<char>> {
    keys.map_values(|k: ForeignKey| k.id@)
}

/// Collects the identifiers of `songs`, in order.
pub fn song_ids(songs: &Vec<Song>) -> (r: Vec<String>)
    ensures
        r@.map_values(|s: String| s@) == song_ids_of(songs@),
{
    let mut r: Vec<String> = Vec::new();
    let mut i: usize = 0;
    while i < songs.len()
        invariant
            i <= songs@.len(),
            r@.len() == i,
            forall|j: int| 0 <= j < i ==> r@[j]@ == songs@[j].id@,
        decreases songs@.len() - i,
    {
        r.push(songs[i].id.clone());
        i = i + 1;
    }
    assert(r@.map_values(|s: String| s@) =~= song_ids_of(songs@));
    r
}

impl Playlist {
    /// The identifiers of this playlist's songs, in playback order.
    pub fn song_ids(&self) -> (r: Vec<String>)
        ensures
            r@.map_values(|s: String| s@) == key_ids_of(self.songs@),
    {
        let mut r: Vec<String> = Vec::new();
        let mut i: usize = 0;
        while i < self.songs.len()
            invariant
                i <= self.songs@.len(),
                r@.len() == i,
                forall|j: int| 0 <= j < i ==> r@[j]@ == self.songs@[j].id@,
            decreases self.songs@.len() - i,
        {
            r.push(self.songs[i].id.clone());
            i = i + 1;
        }
        assert(r@.map_values(|s: String| s@) =~= key_ids_of(self.songs@));
        r
    }
}

} // verus!
