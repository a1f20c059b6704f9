use vstd::prelude::*;

verus! {

/// A login issued by the authentication service: who was logged in, the
/// access token, its type and the time (seconds since the Unix epoch) after
/// which it is no longer valid.
#[derive(Clone, Debug)]
pub struct LoginResult {
    pub id: u128,
    pub username: String,
    pub token: String,
    pub token_type: String,
    pub expiration: i64,
}

impl LoginResult {
    /// A token is expired at instant `now_nanos` (nanoseconds since the Unix
    /// epoch) when that instant lies strictly after its expiration second.
    pub open spec fn expired_at(self, now_nanos: int) -> bool {
        now_nanos > self.expiration * 1_000_000_000
    }

    /// An empty login: no user, no token, expiring at the epoch.
    pub open spec fn is_empty(self) -> bool {
        &&& self.id == 0
        &&& self.username@.len() == 0
        &&& self.token@.len() == 0
        &&& self.token_type@.len() == 0
        &&& self.expiration == 0
    }

    /// Whether the token is expired at `now_nanos` (nanoseconds since the
    /// Unix epoch).
    pub fn token_expired_at(&self, now_nanos: i128) -> (res: bool)
        ensures
            res == self.expired_at(now_nanos as int),
    {
        let expiration_nanos: i128 = self.expiration as i128 * 1_000_000_000i128;
        now_nanos > expiration_nanos
    }
}

impl Default for LoginResult {
    fn default() -> (res: Self)
        ensures
            res.is_empty(),
    {
        LoginResult {
            id: 0,
            username: String::new(),
            token: String::new(),
            token_type: String::new(),
            expiration: 0,
        }
    }
}

/// The kinds of file a cover art is saved as.
#[derive(Clone, Copy, Debug, PartialEq, Eq, Structural)]
pub enum CoverArtType {
    PngExtension,
    JpegExtension,
    JpgExtension,
    Unspecified,
}

/// A song record of the music service, and the file that holds it.
#[derive(Clone, Debug)]
pub struct Song {
    pub id: u128,
    pub title: String,
    pub artist: String,
    pub album_artist: String,
    pub album: String,
    pub genre: String,
    pub year: i32,
    pub duration: i64,
    pub track: i32,
    pub disc: i32,
    pub track_count: i32,
    pub disc_count: i32,
    pub audio_type: String,
    pub date_created: String,
    pub filename: String,
    pub user_id: u128,
    pub data: Vec<u8>,
    pub directory: String,
}

impl Song {
    /// A song with no content: every text empty, every number zero.
    pub open spec fn is_empty(self) -> bool {
        &&& self.id == 0
        &&& self.title@.len() == 0
        &&& self.artist@.len() == 0
        &&& self.album_artist@.len() == 0
        &&& self.album@.len() == 0
        &&& self.genre@.len() == 0
        &&& self.year == 0
        &&& self.duration == 0
        &&& self.track == 0
        &&& self.disc == 0
        &&& self.track_count == 0
        &&& self.disc_count == 0
        &&& self.audio_type@.len() == 0
        &&& self.date_created@.len() == 0
        &&& self.filename@.len() == 0
        &&& self.user_id == 0
        &&& self.data@.len() == 0
        &&& self.directory@.len() == 0
    }

    /// The same song, kept in the given directory under the given file name.
    pub open spec fn placed(self, directory: String, filename: String) -> Song {
        Song { directory, filename, ..self }
    }

    /// Moves the song into `directory` under `filename`.
    pub fn place(self, directory: String, filename: String) -> (res: Song)
        ensures
            res == self.placed(directory, filename),
    {
        Song { directory, filename, ..self }
    }
}

impl Default for Song {
    fn default() -> (res: Self)
        ensures
            res.is_empty(),
    {
        Song {
            id: 0,
            title: String::new(),
            artist: String::new(),
            album_artist: String::new(),
            album: String::new(),
            genre: String::new(),
            year: 0,
            duration: 0,
            track: 0,
            disc: 0,
            track_count: 0,
            disc_count: 0,
            audio_type: String::new(),
            date_created: String::new(),
            filename: String::new(),
            user_id: 0,
            data: Vec::new(),
            directory: String::new(),
        }
    }
}

/// A cover art record of the music service, and the file that holds it.
#[derive(Clone, Debug)]
pub struct CoverArt {
    pub id: u128,
    pub title: String,
    pub path: String,
    pub file_type: String,
    pub data: Vec<u8>,
    pub song_id: u128,
    pub directory: String,
    pub filename: String,
}

impl CoverArt {
    /// A cover art with no content: every text empty, every number zero.
    pub open spec fn is_empty(self) -> bool {
        &&& self.id == 0
        &&& self.title@.len() == 0
        &&& self.path@.len() == 0
        &&& self.file_type@.len() == 0
        &&& self.data@.len() == 0
        &&& self.song_id == 0
        &&& self.directory@.len() == 0
        &&& self.filename@.len() == 0
    }

    /// The same cover art, kept in the given directory under the given file name.
    pub open spec fn placed(self, directory: String, filename: String) -> CoverArt {
        CoverArt { directory, filename, ..self }
    }

    /// Moves the cover art into `directory` under `filename`.
    pub fn place(self, directory: String, filename: String) -> (res: CoverArt)
        ensures
            res == self.placed(directory, filename),
    {
        CoverArt { directory, filename, ..self }
    }
}

impl Default for CoverArt {
    fn default() -> (res: Self)
        ensures
            res.is_empty(),
    {
        CoverArt {
            id: 0,
            title: String::new(),
            path: String::new(),
            file_type: String::new(),
            data: Vec::new(),
            song_id: 0,
            directory: String::new(),
            filename: String::new(),
        }
    }
}

} // verus!
