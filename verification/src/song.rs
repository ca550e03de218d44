use crate::json::{json_integer, json_integer_at};
use vstd::prelude::*;
use vstd::string::*;

verus! {

/// A track that the store holds: its identifier, what it is called, where
/// its media lies, how long it plays (in seconds) and whether it is flagged
/// as sensitive.
#[derive(Debug, PartialEq, Eq)]
pub struct Song {
    pub id: i32,
    pub name: String,
    pub path: String,
    pub duration: i32,
    pub thumbnail_url: String,
    pub artists: String,
    pub nsfw: bool,
}

impl Clone for Song {
    fn clone(&self) -> (r: Self)
        ensures
            r == *self,
    {
        Song {
            id: self.id,
            name: self.name.clone(),
            path: self.path.clone(),
            duration: self.duration,
            thumbnail_url: self.thumbnail_url.clone(),
            artists: self.artists.clone(),
            nsfw: self.nsfw,
        }
    }
}

/// What a client asks for. `requested_at` is the moment the server took the
/// request, in microseconds since the Unix epoch, and `requester` the
/// channel of the client that asked; a client supplies neither.
#[derive(Debug, PartialEq, Eq)]
pub struct SongRequest {
    pub artists: String,
    pub name: String,
    pub requested_at: i64,
    pub thumbnail_url: Option<String>,
    pub requester: u64,
}

impl Clone for SongRequest {
    fn clone(&self) -> (r: Self)
        ensures
            r == *self,
    {
        let thumbnail_url = match &self.thumbnail_url {
            Some(url) => Some(url.clone()),
            None => None,
        };
        SongRequest {
            artists: self.artists.clone(),
            name: self.name.clone(),
            requested_at: self.requested_at,
            thumbnail_url,
            requester: self.requester,
        }
    }
}

/// A freshly acquired track, before the store has given it an identifier.
#[derive(Debug, PartialEq, Eq)]
pub struct NewSong {
    pub name: String,
    pub path: String,
    pub duration: i32,
    pub thumbnail_url: String,
    pub artists: String,
}

impl Clone for NewSong {
    fn clone(&self) -> (r: Self)
        ensures
            r == *self,
    {
        NewSong {
            name: self.name.clone(),
            path: self.path.clone(),
            duration: self.duration,
            thumbnail_url: self.thumbnail_url.clone(),
            artists: self.artists.clone(),
        }
    }
}

/// Why a request did not yield a song.
#[derive(Clone, Copy, Debug, PartialEq, Eq, Structural)]
pub enum AcquisitionError {
    /// Neither the store nor the downloader has the track.
    NotFound,
    /// The downloader failed on the way.
    TransferFailed,
    /// The store gave no answer.
    StoreUnavailable,
}

/// The text by which a request is searched for and stored: the name, then
/// `" - "`, then the artists.
pub open spec fn formatted_name(name: Seq<char>, artists: Seq<char>) -> Seq<char> {
    name + " - "@ + artists
}

/// Two requests are for the same track when name and artists agree.
pub open spec fn same_track(a: SongRequest, b: SongRequest) -> bool {
    a.name@ == b.name@ && a.artists@ == b.artists@
}

impl SongRequest {
    /// The text by which this request is searched for and stored.
    pub fn get_formatted_name(&self) -> (r: String)
        ensures
            r@ == formatted_name(self.name@, self.artists@),
    {
        let mut r = self.name.clone();
        r.append(" - ");
        r.append(self.artists.as_str());
        r
    }

    /// Whether `other` asks for the track that `self` asks for.
    pub fn is_same_track(&self, other: &SongRequest) -> (r: bool)
        ensures
            r == same_track(*self, *other),
    {
        self.name == other.name && self.artists == other.artists
    }
}

/// Where a song called `song_name` lies below the directory `songs_dir`.
pub fn get_song_path(songs_dir: &str, song_name: &str) -> (r: String)
    ensures
        r@ == songs_dir@ + "/"@ + song_name@,
{
    let mut r = String::from_str(songs_dir);
    r.append("/");
    r.append(song_name);
    r
}

/// Where the downloader leaves the description of the song at `song_path`.
pub fn get_json_path(song_path: &str) -> (r: String)
    ensures
        r@ == song_path@ + ".info.json"@,
{
    let mut r = String::from_str(song_path);
    r.append(".info.json");
    r
}

/// The query handed to the downloader: the first search hit for the
/// request's formatted name.
pub fn search_query(requested_song: &SongRequest) -> (r: String)
    ensures
        r@ == "ytsearch1:"@ + formatted_name(requested_song.name@, requested_song.artists@),
{
    let mut r = String::from_str("ytsearch1:");
    let name = requested_song.get_formatted_name();
    r.append(name.as_str());
    r
}

/// The output pattern handed to the downloader, which fills in the
/// extension itself.
pub fn output_template(requested_song: &SongRequest) -> (r: String)
    ensures
        r@ == formatted_name(requested_song.name@, requested_song.artists@) + ".%(ext)s"@,
{
    let mut r = requested_song.get_formatted_name();
    r.append(".%(ext)s");
    r
}

/// What `download_song` hands back for `request` once the downloader has
/// left its media at `song_path` with a description that gives `duration`.
pub open spec fn downloaded_song(request: SongRequest, song_path: Seq<char>, duration: i32, song: NewSong) -> bool {
    &&& song.name@ == request.name@
    &&& song.artists@ == request.artists@
    &&& song.duration == duration
    &&& song.path@ == song_path + ".wav"@
    &&& song.thumbnail_url@ == match request.thumbnail_url {
        Some(url) => url@,
        None => Seq::<char>::empty(),
    }
}

/// The record of the song downloaded for `requested_song` to `song_path`,
/// which plays for `duration` seconds.
pub fn new_song(requested_song: &SongRequest, song_path: &str, duration: i32) -> (song: NewSong)
    ensures
        downloaded_song(*requested_song, song_path@, duration, song),
{
    let mut path = String::from_str(song_path);
    path.append(".wav");
    let thumbnail_url = match &requested_song.thumbnail_url {
        Some(url) => url.clone(),
        None => String::new(),
    };
    NewSong {
        name: requested_song.name.clone(),
        path,
        duration,
        thumbnail_url,
        artists: requested_song.artists.clone(),
    }
}

/// What the downloader's description of a song says of it.
#[derive(Clone, Copy, Debug, PartialEq, Eq, Structural)]
pub struct Info {
    pub duration: i32,
}

/// The description that gives `duration`: there is none without a
/// duration, nor with one that no `i32` holds.
pub open spec fn info_of(duration: Option<i64>) -> Option<Info> {
    match duration {
        Some(d) => if i32::MIN <= d <= i32::MAX {
            Some(Info { duration: d as i32 })
        } else {
            None
        },
        None => None,
    }
}

/// Makes the description of a song out of the duration read for it.
pub fn song_info(duration: Option<i64>) -> (r: Option<Info>)
    ensures
        r == info_of(duration),
{
    match duration {
        Some(d) => if -2147483648 <= d && d <= 2147483647 {
            Some(Info { duration: d as i32 })
        } else {
            None
        },
        None => None,
    }
}

/// Reads the downloader's description of a song, a JSON document with the
/// song's duration in seconds at `/duration`.
pub fn get_song_info(description: &str) -> (r: Option<Info>)
    ensures
        r == info_of(json_integer_at(description@, "/duration"@)),
{
    song_info(json_integer(description, "/duration"))
}

/// Whether `r` is the outcome of a download for `request` to `song_path`.
///
/// `ran` says whether the downloader could be run at all; if not, the
/// transfer has failed. `info` is what its description of the song gave:
/// without a description the track was not found; a description without a
/// duration counts as a failed transfer; with a duration there is a song.
pub open spec fn download_outcome(
    request: SongRequest,
    song_path: Seq<char>,
    ran: bool,
    info: Option<Option<Info>>,
    r: Result<NewSong, AcquisitionError>,
) -> bool {
    if !ran {
        r == Err::<NewSong, AcquisitionError>(AcquisitionError::TransferFailed)
    } else {
        match info {
            None => r == Err::<NewSong, AcquisitionError>(AcquisitionError::NotFound),
            Some(None) => r == Err::<NewSong, AcquisitionError>(AcquisitionError::TransferFailed),
            Some(Some(info)) => r is Ok && downloaded_song(request, song_path, info.duration, r->Ok_0),
        }
    }
}

/// Judges a download by whether the downloader ran and by what its
/// description of the song gave.
pub fn downloaded(requested_song: &SongRequest, song_path: &str, ran: bool, info: Option<Option<Info>>) -> (r:
    Result<NewSong, AcquisitionError>)
    ensures
        download_outcome(*requested_song, song_path@, ran, info, r),
{
    if !ran {
        return Err(AcquisitionError::TransferFailed);
    }
    match info {
        None => Err(AcquisitionError::NotFound),
        Some(None) => Err(AcquisitionError::TransferFailed),
        Some(Some(info)) => Ok(new_song(requested_song, song_path, info.duration)),
    }
}

/// What the text of a description gives, if there is a description.
pub open spec fn description_info(description: Option<&str>) -> Option<Option<Info>> {
    match description {
        Some(text) => Some(info_of(json_integer_at(text@, "/duration"@))),
        None => None,
    }
}

/// Judges a download by whether the downloader ran and by the text of the
/// description that it left, if it left one.
pub fn download_song(requested_song: &SongRequest, song_path: &str, ran: bool, description: Option<&str>) -> (r:
    Result<NewSong, AcquisitionError>)
    ensures
        download_outcome(*requested_song, song_path@, ran, description_info(description), r),
{
    let info = match description {
        Some(text) => Some(get_song_info(text)),
        None => None,
    };
    downloaded(requested_song, song_path, ran, info)
}

} // verus!
