//! The values that cross the boundary of the playback engine: tracks of a
//! playlist, commands from the UI, and the API's answer to a URL query.
use vstd::prelude::*;
use vstd::string::*;

verus! {

/// A track of the playlist.
#[derive(Debug)]
pub struct SongData {
    /// The remote identifier of the track.
    pub ncm_id: String,
    /// A path to a local copy of the track; empty or absent on disk where there is none.
    pub local_file: String,
    /// Nominal duration.
    pub duration: usize,
    /// Position of the track in the order the playlist was first given in.
    pub orig_order: usize,
}

/// A track as plain values.
pub struct SongView {
    pub ncm_id: Seq<char>,
    pub local_file: Seq<char>,
    pub duration: usize,
    pub orig_order: usize,
}

impl View for SongData {
    type V = SongView;

    open spec fn view(&self) -> SongView {
        SongView {
            ncm_id: self.ncm_id@,
            local_file: self.local_file@,
            duration: self.duration,
            orig_order: self.orig_order,
        }
    }
}

/// The plain values of a list of tracks.
pub open spec fn songs_view(s: Seq<SongData>) -> Seq<SongView> {
    s.map_values(|x: SongData| x@)
}

impl Clone for SongData {
    fn clone(&self) -> (r: Self)
        ensures
            r@ == self@,
    {
        SongData {
            ncm_id: self.ncm_id.clone(),
            local_file: self.local_file.clone(),
            duration: self.duration,
            orig_order: self.orig_order,
        }
    }
}

impl Default for SongData {
    fn default() -> (r: Self)
        ensures
            r@.ncm_id.len() == 0,
            r@.local_file.len() == 0,
            r.duration == 0,
            r.orig_order == 0,
    {
        SongData { ncm_id: String::new(), local_file: String::new(), duration: 0, orig_order: 0 }
    }
}

/// Copies a list of tracks.
pub fn clone_songs(v: &Vec<SongData>) -> (r: Vec<SongData>)
    ensures
        songs_view(r@) == songs_view(v@),
{
    let mut r: Vec<SongData> = Vec::new();
    let mut i: usize = 0;
    while i < v.len()
        invariant
            i <= v@.len(),
            r@.len() == i,
            forall|j: int| 0 <= j < i ==> #[trigger] r@[j]@ == v@[j]@,
        decreases v@.len() - i,
    {
        r.push(v[i].clone());
        i = i + 1;
    }
    assert(songs_view(r@) =~= songs_view(v@));
    r
}

/// A command to the playback engine. Each but `SyncStatus` carries the
/// correlation id under which it is acknowledged.
#[derive(Debug)]
pub enum AudioThreadMessage {
    ResumeAudio { callback_id: String },
    PauseAudio { callback_id: String },
    SeekAudio { callback_id: String, position: std::time::Duration },
    JumpToSong { callback_id: String, song_index: usize },
    PrevSong { callback_id: String },
    NextSong { callback_id: String },
    SetPlaylist { callback_id: String, songs: Vec<SongData> },
    SetCookie { callback_id: String, cookie: String },
    SyncStatus,
}

/// The correlation id of a command; empty for `SyncStatus`.
pub open spec fn callback_id_of(m: AudioThreadMessage) -> Seq<char> {
    match m {
        AudioThreadMessage::ResumeAudio { callback_id } => callback_id@,
        AudioThreadMessage::PauseAudio { callback_id } => callback_id@,
        AudioThreadMessage::SeekAudio { callback_id, .. } => callback_id@,
        AudioThreadMessage::JumpToSong { callback_id, .. } => callback_id@,
        AudioThreadMessage::PrevSong { callback_id } => callback_id@,
        AudioThreadMessage::NextSong { callback_id } => callback_id@,
        AudioThreadMessage::SetPlaylist { callback_id, .. } => callback_id@,
        AudioThreadMessage::SetCookie { callback_id, .. } => callback_id@,
        AudioThreadMessage::SyncStatus => Seq::empty(),
    }
}

impl AudioThreadMessage {
    /// The correlation id under which the command is acknowledged.
    pub fn callback_id(&self) -> (r: &str)
        ensures
            r@ == callback_id_of(*self),
    {
        match self {
            AudioThreadMessage::ResumeAudio { callback_id } => callback_id.as_str(),
            AudioThreadMessage::PauseAudio { callback_id } => callback_id.as_str(),
            AudioThreadMessage::SeekAudio { callback_id, .. } => callback_id.as_str(),
            AudioThreadMessage::JumpToSong { callback_id, .. } => callback_id.as_str(),
            AudioThreadMessage::PrevSong { callback_id } => callback_id.as_str(),
            AudioThreadMessage::NextSong { callback_id } => callback_id.as_str(),
            AudioThreadMessage::SetPlaylist { callback_id, .. } => callback_id.as_str(),
            AudioThreadMessage::SetCookie { callback_id, .. } => callback_id.as_str(),
            AudioThreadMessage::SyncStatus => {
                proof {
                    reveal_strlit("");
                }
                ""
            },
        }
    }
}

/// An acknowledgement or answer to the command with id `callback_id`.
#[derive(Debug)]
pub struct AudioThreadEventMessage<T> {
    pub callback_id: String,
    pub data: T,
}

/// The API's envelope: a status code and, where the call succeeded, data.
#[derive(Debug)]
pub struct NCMResponse<T> {
    pub data: Option<T>,
    pub code: i32,
}

/// One track of the API's answer to a URL query.
#[derive(Debug)]
pub struct NCMSongResponse {
    pub id: usize,
    pub url: Option<String>,
    pub br: usize,
    pub size: usize,
    pub md5: Option<String>,
    pub audio_type: Option<String>,
    pub encode_type: Option<String>,
    pub time: usize,
}

/// The playable URL in an answer: that of its first track; empty where
/// there is no data, no track or no URL.
pub open spec fn song_url_of(r: NCMResponse<Vec<NCMSongResponse>>) -> Seq<char> {
    match r.data {
        Some(v) => if v@.len() > 0 && v@[0].url is Some {
            v@[0].url->Some_0@
        } else {
            Seq::empty()
        },
        None => Seq::empty(),
    }
}

/// The announced size of the first track of an answer; 0 where there is none.
pub open spec fn song_size_of(r: NCMResponse<Vec<NCMSongResponse>>) -> usize {
    match r.data {
        Some(v) => if v@.len() > 0 {
            v@[0].size
        } else {
            0
        },
        None => 0,
    }
}

impl NCMResponse<Vec<NCMSongResponse>> {
    /// The playable URL and announced size of the first track of the answer.
    pub fn song_url(&self) -> (r: (String, usize))
        ensures
            r.0@ == song_url_of(*self),
            r.1 == song_size_of(*self),
    {
        match &self.data {
            Some(v) => {
                if v.len() > 0 {
                    let first = &v[0];
                    let url = match &first.url {
                        Some(u) => u.clone(),
                        None => String::new(),
                    };
                    (url, first.size)
                } else {
                    (String::new(), 0)
                }
            },
            None => (String::new(), 0),
        }
    }
}

} // verus!
