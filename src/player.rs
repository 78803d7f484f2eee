//! The download/decode orchestrator as a state machine. The engine's
//! thread feeds it commands, scheduling ticks and the outcomes of the work
//! it asked for; each step returns the actions to perform, in order.
//! Downloads run on at most one helper thread at a time, whose reports come
//! back as [`DownloadEvent`]s.
use crate::audio::{clone_songs, songs_view, SongData, SongView, AudioThreadMessage};
use crate::eapi::{song_url_form, song_url_form_spec};
use vstd::arithmetic::div_mod::{lemma_mod_add_multiples_vanish, lemma_mod_self_0, lemma_small_mod};
use vstd::prelude::*;
use vstd::string::*;

verus! {

/// Seconds per tick of a decoder's timestamps, as the fraction `numer / denom`.
#[derive(Clone, Copy, Debug, PartialEq, Eq, Structural)]
pub struct TimeBase {
    pub numer: u32,
    pub denom: u32,
}

/// How far loading the current track has come.
#[derive(Clone, Copy, Debug, PartialEq, Eq, Structural)]
pub enum LoadProgress {
    /// The playable URL is being resolved.
    Querying,
    /// Loading failed.
    Failed,
    /// `done` of `total` announced bytes are on disk.
    Partial(usize, usize),
    /// The whole track is available.
    Complete,
}

/// The state of the current track's download.
#[derive(Debug)]
pub enum DownloadStatus {
    Idle,
    QueryingUrl,
    /// The resolved URL and the announced size in bytes.
    GetUrl(String, usize),
    /// Bytes written so far and the announced size.
    DownloadingAudio(usize, usize),
    Downloaded,
    Error(String),
}

/// [`DownloadStatus`] as plain values.
pub enum DownloadView {
    Idle,
    QueryingUrl,
    GetUrl(Seq<char>, usize),
    DownloadingAudio(usize, usize),
    Downloaded,
    Error(Seq<char>),
}

impl View for DownloadStatus {
    type V = DownloadView;

    open spec fn view(&self) -> DownloadView {
        match self {
            DownloadStatus::Idle => DownloadView::Idle,
            DownloadStatus::QueryingUrl => DownloadView::QueryingUrl,
            DownloadStatus::GetUrl(u, s) => DownloadView::GetUrl(u@, *s),
            DownloadStatus::DownloadingAudio(d, t) => DownloadView::DownloadingAudio(*d, *t),
            DownloadStatus::Downloaded => DownloadView::Downloaded,
            DownloadStatus::Error(e) => DownloadView::Error(e@),
        }
    }
}

/// The progress that a download state reports.
pub open spec fn progress_of(d: DownloadView) -> LoadProgress {
    match d {
        DownloadView::Idle => LoadProgress::Complete,
        DownloadView::QueryingUrl => LoadProgress::Querying,
        DownloadView::GetUrl(_, size) => LoadProgress::Partial(0, size),
        DownloadView::DownloadingAudio(done, total) => LoadProgress::Partial(done, total),
        DownloadView::Downloaded => LoadProgress::Complete,
        DownloadView::Error(_) => LoadProgress::Failed,
    }
}

/// A reported progress lies within 0 to 1: never more bytes than announced.
pub open spec fn progress_in_range(p: LoadProgress) -> bool {
    p matches LoadProgress::Partial(done, total) ==> done <= total
}

/// Every progress that a list of actions reports lies within 0 to 1.
pub open spec fn reports_in_range(acts: Seq<ActionView>) -> bool {
    forall|i: int|
        0 <= i < acts.len() ==> match #[trigger] acts[i] {
            ActionView::Emit(EventView::LoadProgress(p)) => progress_in_range(p),
            ActionView::Emit(EventView::SyncStatus(_, _, _, _, _, p, _)) => progress_in_range(p),
            _ => true,
        }
}

/// Whether the whole track is on disk: nothing is downloading, or the
/// download is done, or all announced bytes have arrived.
pub open spec fn is_complete(d: DownloadView) -> bool {
    match d {
        DownloadView::Idle => true,
        DownloadView::Downloaded => true,
        DownloadView::DownloadingAudio(done, total) => total > 0 && done == total,
        _ => false,
    }
}

/// Whether no more bytes will arrive: the track is complete or its download failed.
pub open spec fn download_ended(d: DownloadView) -> bool {
    is_complete(d) || d is Error
}

impl DownloadStatus {
    /// The progress to report for this state.
    pub fn get_download_progress(&self) -> (r: LoadProgress)
        ensures
            r == progress_of(self@),
            (self@ matches DownloadView::DownloadingAudio(done, total) ==> done <= total)
                ==> progress_in_range(r),
    {
        match self {
            DownloadStatus::Idle => LoadProgress::Complete,
            DownloadStatus::QueryingUrl => LoadProgress::Querying,
            DownloadStatus::GetUrl(_, size) => LoadProgress::Partial(0, *size),
            DownloadStatus::DownloadingAudio(done, total) => LoadProgress::Partial(*done, *total),
            DownloadStatus::Downloaded => LoadProgress::Complete,
            DownloadStatus::Error(_) => LoadProgress::Failed,
        }
    }

    /// Whether the whole track is on disk.
    pub fn is_complete(&self) -> (r: bool)
        ensures
            r == is_complete(self@),
    {
        match self {
            DownloadStatus::Idle => true,
            DownloadStatus::Downloaded => true,
            DownloadStatus::DownloadingAudio(done, total) => *total > 0 && *done == *total,
            _ => false,
        }
    }
}

/// Within one download, the announced size stays and the byte count never
/// falls. A download starts from another state, so any two consecutive
/// `DownloadingAudio` states belong to one download.
pub open spec fn progress_step(before: DownloadView, after: DownloadView) -> bool {
    (before is DownloadingAudio && after is DownloadingAudio) ==> (after->DownloadingAudio_1
        == before->DownloadingAudio_1 && after->DownloadingAudio_0 >= before->DownloadingAudio_0)
}

/// What the engine tells listeners.
#[derive(Debug)]
pub enum PlayerEvent {
    /// Playback reached timestamp `ts`.
    PlayPosition { ts: u64, timebase: TimeBase },
    LoadProgress { progress: LoadProgress },
    /// The track is loaded; it lasts `duration` ticks.
    LoadAudio { ncm_id: String, duration: u64, timebase: TimeBase },
    LoadingAudio { ncm_id: String },
    SyncStatus {
        ncm_id: String,
        is_playing: bool,
        duration: u64,
        position: u64,
        timebase: TimeBase,
        load_progress: LoadProgress,
        playlist: Vec<SongData>,
    },
    PlayStatus { is_playing: bool },
    LoadError { error: String },
}

/// [`PlayerEvent`] as plain values.
pub enum EventView {
    PlayPosition(u64, TimeBase),
    LoadProgress(LoadProgress),
    LoadAudio(Seq<char>, u64, TimeBase),
    LoadingAudio(Seq<char>),
    SyncStatus(Seq<char>, bool, u64, u64, TimeBase, LoadProgress, Seq<SongView>),
    PlayStatus(bool),
    LoadError(Seq<char>),
}

impl View for PlayerEvent {
    type V = EventView;

    open spec fn view(&self) -> EventView {
        match self {
            PlayerEvent::PlayPosition { ts, timebase } => EventView::PlayPosition(*ts, *timebase),
            PlayerEvent::LoadProgress { progress } => EventView::LoadProgress(*progress),
            PlayerEvent::LoadAudio { ncm_id, duration, timebase } => EventView::LoadAudio(
                ncm_id@,
                *duration,
                *timebase,
            ),
            PlayerEvent::LoadingAudio { ncm_id } => EventView::LoadingAudio(ncm_id@),
            PlayerEvent::SyncStatus {
                ncm_id,
                is_playing,
                duration,
                position,
                timebase,
                load_progress,
                playlist,
            } => EventView::SyncStatus(
                ncm_id@,
                *is_playing,
                *duration,
                *position,
                *timebase,
                *load_progress,
                songs_view(playlist@),
            ),
            PlayerEvent::PlayStatus { is_playing } => EventView::PlayStatus(*is_playing),
            PlayerEvent::LoadError { error } => EventView::LoadError(error@),
        }
    }
}

/// A piece of work for the engine's thread, which performs it and, where
/// noted, reports the outcome back.
#[derive(Debug)]
pub enum PlayerAction {
    /// Acknowledge the command under its correlation id.
    Reply,
    /// Send this cookie with every later request.
    ApplyCookie(String),
    /// Start the output device's stream.
    PlayStream,
    /// Pause the output device's stream.
    PauseStream,
    /// Tell listeners.
    Emit(PlayerEvent),
    /// Raise the stop flag, join the helper thread if there is one, lower the flag.
    StopDownload,
    /// Open and probe this local file; report with [`AudioPlayer::on_local_file`].
    OpenLocal(String),
    /// On a helper thread, post this form body to the URL endpoint; it
    /// reports [`DownloadEvent::UrlResolved`] or [`DownloadEvent::ResolveFailed`].
    ResolveUrl(String),
    /// On a helper thread, stream this URL into the scratch file; it reports
    /// progress, the end, or a failure.
    StartDownload(String, usize),
    /// Probe the scratch file; report with [`AudioPlayer::on_probe`].
    ProbeDownload,
    /// Sleep a short while before the next tick.
    Wait,
    /// Read and decode the next packet; report with [`AudioPlayer::on_packet`].
    NextPacket,
    /// Build a decoder for the default track; report with [`AudioPlayer::on_decoder`].
    MakeDecoder,
    /// Drop the probe result and the decoder.
    ClearDecoder,
    /// Hand the buffer just decoded to the output sink.
    WriteDecoded,
}

/// [`PlayerAction`] as plain values.
pub enum ActionView {
    Reply,
    ApplyCookie(Seq<char>),
    PlayStream,
    PauseStream,
    Emit(EventView),
    StopDownload,
    OpenLocal(Seq<char>),
    ResolveUrl(Seq<char>),
    StartDownload(Seq<char>, usize),
    ProbeDownload,
    Wait,
    NextPacket,
    MakeDecoder,
    ClearDecoder,
    WriteDecoded,
}

impl View for PlayerAction {
    type V = ActionView;

    open spec fn view(&self) -> ActionView {
        match self {
            PlayerAction::Reply => ActionView::Reply,
            PlayerAction::ApplyCookie(c) => ActionView::ApplyCookie(c@),
            PlayerAction::PlayStream => ActionView::PlayStream,
            PlayerAction::PauseStream => ActionView::PauseStream,
            PlayerAction::Emit(e) => ActionView::Emit(e@),
            PlayerAction::StopDownload => ActionView::StopDownload,
            PlayerAction::OpenLocal(p) => ActionView::OpenLocal(p@),
            PlayerAction::ResolveUrl(b) => ActionView::ResolveUrl(b@),
            PlayerAction::StartDownload(u, s) => ActionView::StartDownload(u@, *s),
            PlayerAction::ProbeDownload => ActionView::ProbeDownload,
            PlayerAction::Wait => ActionView::Wait,
            PlayerAction::NextPacket => ActionView::NextPacket,
            PlayerAction::MakeDecoder => ActionView::MakeDecoder,
            PlayerAction::ClearDecoder => ActionView::ClearDecoder,
            PlayerAction::WriteDecoded => ActionView::WriteDecoded,
        }
    }
}

/// The plain values of a list of actions.
pub open spec fn actions_view(a: Seq<PlayerAction>) -> Seq<ActionView> {
    a.map_values(|x: PlayerAction| x@)
}

/// Whether a helper thread is live after performing `acts` from a state
/// where one is live (`live`); `None` where an action would start a second
/// helper while one is live.
pub open spec fn helper_after(live: bool, acts: Seq<ActionView>) -> Option<bool>
    decreases acts.len(),
{
    if acts.len() == 0 {
        Some(live)
    } else {
        match acts[0] {
            ActionView::StopDownload => helper_after(false, acts.skip(1)),
            ActionView::ResolveUrl(_) => if live {
                None
            } else {
                helper_after(true, acts.skip(1))
            },
            ActionView::StartDownload(_, _) => if live {
                None
            } else {
                helper_after(true, acts.skip(1))
            },
            _ => helper_after(live, acts.skip(1)),
        }
    }
}

/// Whether the current track is being decoded.
#[derive(Clone, Copy, Debug, PartialEq, Eq, Structural)]
pub enum DecodeSession {
    /// No track is being decoded.
    Absent,
    /// The container was recognised; no decoder yet.
    Probed,
    /// A decoder is ready.
    Ready,
}

/// The outcome the machine waits for before it goes on.
#[derive(Clone, Copy, Debug, PartialEq, Eq, Structural)]
pub enum Pending {
    Nothing,
    LocalFile,
    Probe,
    Packet,
    Decoder,
}

/// What opening the current track's local file gave.
#[derive(Clone, Copy, Debug, PartialEq, Eq, Structural)]
pub enum LocalFileOutcome {
    /// There is no such file.
    Missing,
    /// The file opened and its container was recognised.
    Recognised,
    /// The file opened but its container was not recognised.
    Unrecognised,
}

/// What probing the partly downloaded scratch file gave.
#[derive(Clone, Copy, Debug, PartialEq, Eq, Structural)]
pub enum ProbeOutcome {
    Recognised,
    /// Not recognised from the bytes so far (unsupported, undecodable or
    /// cut short); more bytes may help.
    NotYet,
    /// Any other failure.
    Fatal,
}

/// What building a decoder for the default track gave.
#[derive(Clone, Copy, Debug, PartialEq, Eq, Structural)]
pub enum DecoderOutcome {
    /// A decoder, the track's time base and its length in ticks.
    Made { timebase: TimeBase, n_frames: u64 },
    /// No decoder for the codec; the track's time base and length in ticks.
    Unsupported { timebase: TimeBase, n_frames: u64 },
}

/// What reading and decoding the next packet gave.
#[derive(Clone, Copy, Debug, PartialEq, Eq, Structural)]
pub enum PacketOutcome {
    /// A buffer at timestamp `ts`, waiting to be written.
    Decoded(u64),
    /// The packet was read but did not decode.
    DecodeFailed,
    /// The bytes on disk ran out.
    EndOfStream,
    /// Any other failure to read.
    ReadFailed,
}

/// A report of the helper thread.
#[derive(Debug)]
pub enum DownloadEvent {
    /// The URL query answered with this URL (empty: none) and size.
    UrlResolved(String, usize),
    ResolveFailed(String),
    /// This many more bytes were written to the scratch file.
    Received(usize),
    Finished,
    Failed(String),
}

/// The orchestrator's state as plain values.
pub struct PlayerView {
    pub is_playing: bool,
    pub playlist: Seq<SongView>,
    /// Index of the current track; the next track is chosen by advancing it.
    pub index: usize,
    pub current: SongView,
    pub download: DownloadView,
    /// A helper thread was started and not yet joined.
    pub helper_alive: bool,
    pub session: DecodeSession,
    pub pending: Pending,
    pub timebase: TimeBase,
    /// Timestamp of the last decoded packet.
    pub position: u64,
    /// Length of the current track in ticks.
    pub duration: u64,
}

/// The index after `i` in a list of `len` tracks, wrapping to 0 after the last.
pub open spec fn advance_index(i: usize, len: nat) -> usize {
    if i + 1 >= len {
        0
    } else {
        (i + 1) as usize
    }
}

/// The cursor that makes the next advance land one before track `i`; lists
/// of two or fewer tracks need no change, since there the track before is
/// the track after.
pub open spec fn prev_index(i: usize, len: nat) -> usize {
    if len > 2 {
        if i == 1 {
            len as usize
        } else if i == 0 {
            (len - 2) as usize
        } else {
            (i - 2) as usize
        }
    } else {
        i
    }
}

/// The cursor that makes the next advance land on track `n`; 0 sets it past
/// the end, from where the advance wraps to the first track.
pub open spec fn jump_index(n: usize, len: nat) -> usize {
    if n == 0 {
        len as usize
    } else {
        (n - 1) as usize
    }
}

/// The state after a command that changes track: the helper is joined,
/// the session dropped, the download reset, playback on, and the cursor at `index`.
pub open spec fn switched_to(before: PlayerView, index: usize) -> PlayerView {
    PlayerView {
        is_playing: true,
        index,
        download: DownloadView::Idle,
        helper_alive: false,
        session: DecodeSession::Absent,
        pending: Pending::Nothing,
        ..before
    }
}

/// The actions of a command that changes track.
pub open spec fn switch_actions() -> Seq<ActionView> {
    seq![ActionView::StopDownload, ActionView::ClearDecoder, ActionView::PlayStream, ActionView::Reply]
}

/// The state after the current track ends: the helper is joined, the
/// session dropped, and the download reset, unless it failed, in which case
/// the failure is kept to be reported.
pub open spec fn finished(before: PlayerView) -> PlayerView {
    PlayerView {
        download: if before.download is Error {
            before.download
        } else {
            DownloadView::Idle
        },
        helper_alive: false,
        session: DecodeSession::Absent,
        pending: Pending::Nothing,
        ..before
    }
}

/// The actions when the current track ends.
pub open spec fn finish_actions() -> Seq<ActionView> {
    seq![ActionView::ClearDecoder, ActionView::StopDownload]
}

/// The error recorded for a track whose URL query found no URL.
pub open spec fn no_url_error() -> Seq<char> {
    "no playable URL for the track"@
}

/// The error recorded for a track whose container was not recognised.
pub open spec fn unrecognised_error() -> Seq<char> {
    "the audio container was not recognised"@
}

/// The error recorded for a track that no decoder can decode.
pub open spec fn unsupported_error() -> Seq<char> {
    "the audio codec is not supported"@
}

/// The error recorded for a track whose packets fail to decode or to read.
pub open spec fn decode_error() -> Seq<char> {
    "the audio could not be decoded"@
}

/// The orchestrator: playlist, cursor, current track, download state and
/// decode session.
pub struct AudioPlayer {
    is_playing: bool,
    playlist: Vec<SongData>,
    current_play_index: usize,
    current_song: SongData,
    download_state: DownloadStatus,
    helper_alive: bool,
    session: DecodeSession,
    pending: Pending,
    timebase: TimeBase,
    play_position: u64,
    play_duration: u64,
}

impl View for AudioPlayer {
    type V = PlayerView;

    closed spec fn view(&self) -> PlayerView {
        PlayerView {
            is_playing: self.is_playing,
            playlist: songs_view(self.playlist@),
            index: self.current_play_index,
            current: self.current_song@,
            download: self.download_state@,
            helper_alive: self.helper_alive,
            session: self.session,
            pending: self.pending,
            timebase: self.timebase,
            position: self.play_position,
            duration: self.play_duration,
        }
    }
}

impl AudioPlayer {
    /// The outcome awaited fits the session: a local file is opened only with
    /// no helper, no session and no download; a probe only with no session;
    /// packets only with a decoder; a decoder only for a probed container.
    /// A download never counts more bytes than announced, and the playlist's
    /// length fits in a `usize`.
    pub open spec fn wf(&self) -> bool {
        let v = self@;
        &&& v.playlist.len() <= usize::MAX
        &&& v.download matches DownloadView::DownloadingAudio(done, total) ==> done <= total
        &&& v.pending == Pending::LocalFile ==> !v.helper_alive && v.session == DecodeSession::Absent
            && v.download is Idle
        &&& v.pending == Pending::Probe ==> v.session == DecodeSession::Absent
        &&& v.pending == Pending::Packet ==> v.session == DecodeSession::Ready
        &&& v.pending == Pending::Decoder ==> v.session == DecodeSession::Probed
    }

    /// An engine with an empty playlist, paused, with nothing loading.
    pub fn new() -> (r: Self)
        ensures
            r.wf(),
            !r@.is_playing,
            r@.playlist.len() == 0,
            r@.index == 0,
            r@.download is Idle,
            !r@.helper_alive,
            r@.session == DecodeSession::Absent,
            r@.pending == Pending::Nothing,
            r@.position == 0,
            r@.duration == 0,
            r@.current.ncm_id.len() == 0,
            r@.current.local_file.len() == 0,
            r@.current.duration == 0,
            r@.current.orig_order == 0,
    {
        AudioPlayer {
            is_playing: false,
            playlist: Vec::new(),
            current_play_index: 0,
            current_song: SongData::default(),
            download_state: DownloadStatus::Idle,
            helper_alive: false,
            session: DecodeSession::Absent,
            pending: Pending::Nothing,
            timebase: TimeBase { numer: 1, denom: 1 },
            play_position: 0,
            play_duration: 0,
        }
    }

    /// Whether playback is on.
    pub fn is_playing(&self) -> (r: bool)
        ensures
            r == self@.is_playing,
    {
        self.is_playing
    }

    /// The index of the current track in the playlist.
    pub fn current_index(&self) -> (r: usize)
        ensures
            r == self@.index,
    {
        self.current_play_index
    }

    /// The state of the current track's download.
    pub fn download_state(&self) -> (r: &DownloadStatus)
        ensures
            r@ == self@.download,
    {
        &self.download_state
    }

    /// Whether a helper thread was started and not joined.
    pub fn helper_alive(&self) -> (r: bool)
        ensures
            r == self@.helper_alive,
    {
        self.helper_alive
    }

    /// The current decode session.
    pub fn session(&self) -> (r: DecodeSession)
        ensures
            r == self@.session,
    {
        self.session
    }

    fn switch_track(&mut self, index: usize) -> (r: Vec<PlayerAction>)
        ensures
            final(self)@ == switched_to(old(self)@, index),
            actions_view(r@) == switch_actions(),
    {
        self.session = DecodeSession::Absent;
        self.pending = Pending::Nothing;
        self.is_playing = true;
        self.current_play_index = index;
        self.download_state = DownloadStatus::Idle;
        self.helper_alive = false;
        let mut acts: Vec<PlayerAction> = Vec::new();
        acts.push(PlayerAction::StopDownload);
        acts.push(PlayerAction::ClearDecoder);
        acts.push(PlayerAction::PlayStream);
        acts.push(PlayerAction::Reply);
        assert(actions_view(acts@) =~= switch_actions());
        acts
    }

    /// Applies a command. Track changes (`PrevSong`, `NextSong`,
    /// `JumpToSong`) stop and join the helper first and leave the download
    /// idle; the next tick picks the track after the new cursor.
    pub fn process_message(&mut self, msg: AudioThreadMessage) -> (r: Vec<PlayerAction>)
        requires
            old(self).wf(),
        ensures
            final(self).wf(),
            helper_after(old(self)@.helper_alive, actions_view(r@)) == Some(final(self)@.helper_alive),
            progress_step(old(self)@.download, final(self)@.download),
            reports_in_range(actions_view(r@)),
            msg is SetCookie ==> final(self)@ == old(self)@ && actions_view(r@) == seq![
                ActionView::ApplyCookie(msg->cookie@),
                ActionView::Reply,
            ],
            msg is ResumeAudio ==> final(self)@ == (PlayerView { is_playing: true, ..old(self)@ })
                && actions_view(r@) == seq![
                ActionView::PlayStream,
                ActionView::Emit(EventView::PlayStatus(true)),
                ActionView::Reply,
            ],
            msg is PauseAudio ==> final(self)@ == (PlayerView { is_playing: false, ..old(self)@ })
                && actions_view(r@) == seq![
                ActionView::PauseStream,
                ActionView::Emit(EventView::PlayStatus(false)),
                ActionView::Reply,
            ],
            msg is PrevSong ==> final(self)@ == switched_to(
                old(self)@,
                prev_index(old(self)@.index, old(self)@.playlist.len()),
            ) && actions_view(r@) == switch_actions(),
            msg is NextSong ==> final(self)@ == switched_to(old(self)@, old(self)@.index)
                && actions_view(r@) == switch_actions(),
            msg is JumpToSong ==> final(self)@ == switched_to(
                old(self)@,
                jump_index(msg->song_index, old(self)@.playlist.len()),
            ) && actions_view(r@) == switch_actions(),
            msg is SetPlaylist ==> final(self)@ == (PlayerView {
                playlist: songs_view(msg->songs@),
                index: msg->songs@.len() as usize,
                ..old(self)@
            }) && actions_view(r@) == seq![ActionView::Reply],
            msg is SeekAudio ==> final(self)@ == old(self)@ && actions_view(r@) == seq![
                ActionView::Reply,
            ],
            msg is SyncStatus ==> final(self)@ == old(self)@ && actions_view(r@) == seq![
                ActionView::Emit(
                    EventView::SyncStatus(
                        old(self)@.current.ncm_id,
                        old(self)@.is_playing,
                        old(self)@.duration,
                        old(self)@.position,
                        old(self)@.timebase,
                        progress_of(old(self)@.download),
                        old(self)@.playlist,
                    ),
                ),
            ],
    {
        let mut acts: Vec<PlayerAction> = Vec::new();
        match msg {
            AudioThreadMessage::SetCookie { cookie, .. } => {
                acts.push(PlayerAction::ApplyCookie(cookie));
                acts.push(PlayerAction::Reply);
            },
            AudioThreadMessage::ResumeAudio { .. } => {
                self.is_playing = true;
                acts.push(PlayerAction::PlayStream);
                acts.push(PlayerAction::Emit(PlayerEvent::PlayStatus { is_playing: true }));
                acts.push(PlayerAction::Reply);
            },
            AudioThreadMessage::PauseAudio { .. } => {
                self.is_playing = false;
                acts.push(PlayerAction::PauseStream);
                acts.push(PlayerAction::Emit(PlayerEvent::PlayStatus { is_playing: false }));
                acts.push(PlayerAction::Reply);
            },
            AudioThreadMessage::PrevSong { .. } => {
                let len = self.playlist.len();
                let i = self.current_play_index;
                let index = if len > 2 {
                    if i == 1 {
                        len
                    } else if i == 0 {
                        len - 2
                    } else {
                        i - 2
                    }
                } else {
                    i
                };
                acts = self.switch_track(index);
            },
            AudioThreadMessage::NextSong { .. } => {
                let index = self.current_play_index;
                acts = self.switch_track(index);
            },
            AudioThreadMessage::JumpToSong { song_index, .. } => {
                let index = if song_index == 0 {
                    self.playlist.len()
                } else {
                    song_index - 1
                };
                acts = self.switch_track(index);
            },
            AudioThreadMessage::SetPlaylist { songs, .. } => {
                self.current_play_index = songs.len();
                self.playlist = songs;
                acts.push(PlayerAction::Reply);
            },
            AudioThreadMessage::SeekAudio { .. } => {
                acts.push(PlayerAction::Reply);
            },
            AudioThreadMessage::SyncStatus => {
                let ev = PlayerEvent::SyncStatus {
                    ncm_id: self.current_song.ncm_id.clone(),
                    is_playing: self.is_playing,
                    duration: self.play_duration,
                    position: self.play_position,
                    timebase: self.timebase,
                    load_progress: self.download_state.get_download_progress(),
                    playlist: clone_songs(&self.playlist),
                };
                acts.push(PlayerAction::Emit(ev));
            },
        }
        proof {
            reveal_with_fuel(helper_after, 5);
        }
        acts
    }

    /// One scheduling tick. With a session it asks for the next packet, or
    /// for a decoder first; without one it drives the current download:
    /// from `Idle` it moves to the next track and tries its local file;
    /// with a resolved URL it starts the download (an empty URL fails the
    /// track); while bytes arrive, and once more after the last, it probes
    /// them; a failure is reported and the download reset.
    pub fn process_audio(&mut self) -> (r: Vec<PlayerAction>)
        requires
            old(self).wf(),
        ensures
            final(self).wf(),
            helper_after(old(self)@.helper_alive, actions_view(r@)) == Some(final(self)@.helper_alive),
            progress_step(old(self)@.download, final(self)@.download),
            reports_in_range(actions_view(r@)),
            old(self)@.pending != Pending::Nothing ==> final(self)@ == old(self)@ && r@.len() == 0,
            old(self)@.pending == Pending::Nothing && old(self)@.session != DecodeSession::Absent
                ==> ({
                let o = old(self)@;
                &&& !o.is_playing ==> final(self)@ == o && r@.len() == 0
                &&& o.is_playing && o.session == DecodeSession::Ready ==> final(self)@ == (PlayerView {
                    pending: Pending::Packet,
                    ..o
                }) && actions_view(r@) == seq![ActionView::NextPacket]
                &&& o.is_playing && o.session == DecodeSession::Probed ==> final(self)@ == (PlayerView {
                    pending: Pending::Decoder,
                    ..o
                }) && actions_view(r@) == seq![ActionView::MakeDecoder]
            }),
            old(self)@.pending == Pending::Nothing && old(self)@.session == DecodeSession::Absent
                ==> ({
                let o = old(self)@;
                let len = o.playlist.len();
                let i = advance_index(o.index, len);
                &&& o.download is Idle && len == 0 ==> final(self)@ == (PlayerView {
                    is_playing: false,
                    ..o
                }) && r@.len() == 0
                &&& o.download is Idle && len > 0 ==> final(self)@ == (PlayerView {
                    index: i,
                    current: o.playlist[i as int],
                    helper_alive: false,
                    pending: Pending::LocalFile,
                    ..o
                }) && actions_view(r@) == seq![
                    ActionView::StopDownload,
                    ActionView::Emit(EventView::LoadingAudio(o.playlist[i as int].ncm_id)),
                    ActionView::OpenLocal(o.playlist[i as int].local_file),
                ]
                &&& o.download is QueryingUrl ==> final(self)@ == o && actions_view(r@) == seq![
                    ActionView::Emit(EventView::LoadProgress(LoadProgress::Querying)),
                    ActionView::Wait,
                ]
                &&& o.download matches DownloadView::GetUrl(url, size) ==> {
                    &&& url.len() == 0 ==> final(self)@ == (PlayerView {
                        download: DownloadView::Error(no_url_error()),
                        helper_alive: false,
                        ..o
                    }) && actions_view(r@) == seq![
                        ActionView::Emit(EventView::LoadProgress(LoadProgress::Partial(0, size))),
                        ActionView::StopDownload,
                    ]
                    &&& url.len() > 0 ==> final(self)@ == (PlayerView {
                        download: DownloadView::DownloadingAudio(0, size),
                        helper_alive: true,
                        ..o
                    }) && actions_view(r@) == seq![
                        ActionView::Emit(EventView::LoadProgress(LoadProgress::Partial(0, size))),
                        ActionView::StopDownload,
                        ActionView::StartDownload(url, size),
                    ]
                }
                &&& o.download matches DownloadView::DownloadingAudio(done, total) ==> final(self)@
                    == (PlayerView { pending: Pending::Probe, ..o }) && actions_view(r@) == seq![
                    ActionView::Emit(EventView::LoadProgress(LoadProgress::Partial(done, total))),
                    ActionView::ProbeDownload,
                ]
                &&& o.download is Downloaded ==> final(self)@ == (PlayerView {
                    pending: Pending::Probe,
                    ..o
                }) && actions_view(r@) == seq![
                    ActionView::Emit(EventView::LoadProgress(LoadProgress::Complete)),
                    ActionView::ProbeDownload,
                ]
                &&& o.download matches DownloadView::Error(e) ==> final(self)@ == (PlayerView {
                    download: DownloadView::Idle,
                    helper_alive: false,
                    ..o
                }) && actions_view(r@) == seq![
                    ActionView::Emit(EventView::LoadError(e)),
                    ActionView::StopDownload,
                ]
            }),
    {
        let mut acts: Vec<PlayerAction> = Vec::new();
        proof {
            reveal_with_fuel(helper_after, 5);
        }
        if self.pending != Pending::Nothing {
            return acts;
        }
        if self.session != DecodeSession::Absent {
            if !self.is_playing {
                return acts;
            }
            if self.session == DecodeSession::Ready {
                self.pending = Pending::Packet;
                acts.push(PlayerAction::NextPacket);
            } else {
                self.pending = Pending::Decoder;
                acts.push(PlayerAction::MakeDecoder);
            }
            return acts;
        }
        match &self.download_state {
            DownloadStatus::Idle => {
                let len = self.playlist.len();
                if len == 0 {
                    self.is_playing = false;
                    return acts;
                }
                let i = if self.current_play_index >= len - 1 {
                    0
                } else {
                    self.current_play_index + 1
                };
                self.helper_alive = false;
                self.current_play_index = i;
                self.current_song = self.playlist[i].clone();
                self.pending = Pending::LocalFile;
                acts.push(PlayerAction::StopDownload);
                acts.push(
                    PlayerAction::Emit(
                        PlayerEvent::LoadingAudio { ncm_id: self.current_song.ncm_id.clone() },
                    ),
                );
                acts.push(PlayerAction::OpenLocal(self.current_song.local_file.clone()));
            },
            DownloadStatus::QueryingUrl => {
                acts.push(
                    PlayerAction::Emit(
                        PlayerEvent::LoadProgress { progress: LoadProgress::Querying },
                    ),
                );
                acts.push(PlayerAction::Wait);
            },
            DownloadStatus::GetUrl(url, size) => {
                let size = *size;
                let url = url.clone();
                acts.push(
                    PlayerAction::Emit(
                        PlayerEvent::LoadProgress { progress: LoadProgress::Partial(0, size) },
                    ),
                );
                acts.push(PlayerAction::StopDownload);
                if url.as_str().is_empty() {
                    self.download_state = DownloadStatus::Error(
                        String::from_str("no playable URL for the track"),
                    );
                    self.helper_alive = false;
                } else {
                    self.download_state = DownloadStatus::DownloadingAudio(0, size);
                    self.helper_alive = true;
                    acts.push(PlayerAction::StartDownload(url, size));
                }
            },
            DownloadStatus::DownloadingAudio(done, total) => {
                let p = LoadProgress::Partial(*done, *total);
                self.pending = Pending::Probe;
                acts.push(PlayerAction::Emit(PlayerEvent::LoadProgress { progress: p }));
                acts.push(PlayerAction::ProbeDownload);
            },
            DownloadStatus::Downloaded => {
                self.pending = Pending::Probe;
                acts.push(
                    PlayerAction::Emit(
                        PlayerEvent::LoadProgress { progress: LoadProgress::Complete },
                    ),
                );
                acts.push(PlayerAction::ProbeDownload);
            },
            DownloadStatus::Error(e) => {
                let e = e.clone();
                self.download_state = DownloadStatus::Idle;
                self.helper_alive = false;
                acts.push(PlayerAction::Emit(PlayerEvent::LoadError { error: e }));
                acts.push(PlayerAction::StopDownload);
            },
        }
        acts
    }

    /// Reports what opening the current track's local file gave: a missing
    /// file sends for its URL on a helper thread; a recognised one becomes
    /// the session, fully available; an unrecognised one fails the track.
    /// Ignored unless that outcome is awaited.
    pub fn on_local_file(&mut self, outcome: LocalFileOutcome) -> (r: Vec<PlayerAction>)
        requires
            old(self).wf(),
        ensures
            final(self).wf(),
            helper_after(old(self)@.helper_alive, actions_view(r@)) == Some(final(self)@.helper_alive),
            progress_step(old(self)@.download, final(self)@.download),
            old(self)@.pending != Pending::LocalFile ==> final(self)@ == old(self)@ && r@.len() == 0,
            old(self)@.pending == Pending::LocalFile ==> ({
                let o = old(self)@;
                &&& outcome == LocalFileOutcome::Missing ==> final(self)@ == (PlayerView {
                    download: DownloadView::QueryingUrl,
                    helper_alive: true,
                    pending: Pending::Nothing,
                    ..o
                }) && actions_view(r@) == seq![
                    ActionView::ResolveUrl(song_url_form_spec(o.current.ncm_id)),
                ]
                &&& outcome == LocalFileOutcome::Recognised ==> final(self)@ == (PlayerView {
                    download: DownloadView::Downloaded,
                    session: DecodeSession::Probed,
                    pending: Pending::Nothing,
                    ..o
                }) && r@.len() == 0
                &&& outcome == LocalFileOutcome::Unrecognised ==> final(self)@ == (PlayerView {
                    download: DownloadView::Error(unrecognised_error()),
                    pending: Pending::Nothing,
                    ..o
                }) && r@.len() == 0
            }),
    {
        let mut acts: Vec<PlayerAction> = Vec::new();
        proof {
            reveal_with_fuel(helper_after, 3);
        }
        if self.pending != Pending::LocalFile {
            return acts;
        }
        self.pending = Pending::Nothing;
        match outcome {
            LocalFileOutcome::Missing => {
                let body = song_url_form(self.current_song.ncm_id.as_str());
                self.download_state = DownloadStatus::QueryingUrl;
                self.helper_alive = true;
                acts.push(PlayerAction::ResolveUrl(body));
            },
            LocalFileOutcome::Recognised => {
                self.download_state = DownloadStatus::Downloaded;
                self.session = DecodeSession::Probed;
            },
            LocalFileOutcome::Unrecognised => {
                self.download_state = DownloadStatus::Error(
                    String::from_str("the audio container was not recognised"),
                );
            },
        }
        acts
    }

    /// Reports what probing the scratch file gave. Recognised bytes become
    /// the session, though the download may go on. Unrecognised bytes wait
    /// for more while they may come; once all are there the download is
    /// marked done, and the last probe after that fails the track. Any other
    /// failure stops the download and fails the track. Ignored unless a probe
    /// is awaited.
    pub fn on_probe(&mut self, outcome: ProbeOutcome) -> (r: Vec<PlayerAction>)
        requires
            old(self).wf(),
        ensures
            final(self).wf(),
            helper_after(old(self)@.helper_alive, actions_view(r@)) == Some(final(self)@.helper_alive),
            progress_step(old(self)@.download, final(self)@.download),
            old(self)@.pending != Pending::Probe ==> final(self)@ == old(self)@ && r@.len() == 0,
            old(self)@.pending == Pending::Probe ==> ({
                let o = old(self)@;
                &&& outcome == ProbeOutcome::Recognised ==> final(self)@ == (PlayerView {
                    session: DecodeSession::Probed,
                    pending: Pending::Nothing,
                    ..o
                }) && r@.len() == 0
                &&& outcome == ProbeOutcome::NotYet && o.download is Downloaded ==> final(self)@
                    == (PlayerView {
                    download: DownloadView::Error(unrecognised_error()),
                    pending: Pending::Nothing,
                    ..o
                }) && r@.len() == 0
                &&& outcome == ProbeOutcome::NotYet && !(o.download is Downloaded) && is_complete(
                    o.download,
                ) ==> final(self)@ == (PlayerView {
                    download: DownloadView::Downloaded,
                    pending: Pending::Nothing,
                    ..o
                }) && r@.len() == 0
                &&& outcome == ProbeOutcome::NotYet && !is_complete(o.download) ==> final(self)@
                    == (PlayerView { pending: Pending::Nothing, ..o }) && actions_view(r@) == seq![
                    ActionView::Wait,
                ]
                &&& outcome == ProbeOutcome::Fatal ==> final(self)@ == (PlayerView {
                    download: DownloadView::Error(unrecognised_error()),
                    helper_alive: false,
                    pending: Pending::Nothing,
                    ..o
                }) && actions_view(r@) == seq![ActionView::StopDownload]
            }),
    {
        let mut acts: Vec<PlayerAction> = Vec::new();
        proof {
            reveal_with_fuel(helper_after, 3);
        }
        if self.pending != Pending::Probe {
            return acts;
        }
        self.pending = Pending::Nothing;
        match outcome {
            ProbeOutcome::Recognised => {
                self.session = DecodeSession::Probed;
            },
            ProbeOutcome::NotYet => {
                let downloaded = match &self.download_state {
                    DownloadStatus::Downloaded => true,
                    _ => false,
                };
                if downloaded {
                    self.download_state = DownloadStatus::Error(
                        String::from_str("the audio container was not recognised"),
                    );
                } else if self.download_state.is_complete() {
                    self.download_state = DownloadStatus::Downloaded;
                } else {
                    acts.push(PlayerAction::Wait);
                }
            },
            ProbeOutcome::Fatal => {
                self.download_state = DownloadStatus::Error(
                    String::from_str("the audio container was not recognised"),
                );
                self.helper_alive = false;
                acts.push(PlayerAction::StopDownload);
            },
        }
        acts
    }

    fn finish_track(&mut self) -> (r: Vec<PlayerAction>)
        ensures
            final(self)@ == finished(old(self)@),
            actions_view(r@) == finish_actions(),
    {
        let failed = match &self.download_state {
            DownloadStatus::Error(_) => true,
            _ => false,
        };
        if !failed {
            self.download_state = DownloadStatus::Idle;
        }
        self.helper_alive = false;
        self.session = DecodeSession::Absent;
        self.pending = Pending::Nothing;
        let mut acts: Vec<PlayerAction> = Vec::new();
        acts.push(PlayerAction::ClearDecoder);
        acts.push(PlayerAction::StopDownload);
        assert(actions_view(acts@) =~= finish_actions());
        acts
    }

    /// Reports what building a decoder gave. Either way the container was
    /// recognised, so the track is announced as loaded with its length;
    /// without a decoder it then ends with a failure.
    /// Ignored unless a decoder is awaited.
    pub fn on_decoder(&mut self, outcome: DecoderOutcome) -> (r: Vec<PlayerAction>)
        requires
            old(self).wf(),
        ensures
            final(self).wf(),
            helper_after(old(self)@.helper_alive, actions_view(r@)) == Some(final(self)@.helper_alive),
            progress_step(old(self)@.download, final(self)@.download),
            old(self)@.pending != Pending::Decoder ==> final(self)@ == old(self)@ && r@.len() == 0,
            old(self)@.pending == Pending::Decoder ==> ({
                let o = old(self)@;
                &&& outcome matches DecoderOutcome::Made { timebase, n_frames } ==> final(self)@
                    == (PlayerView {
                    session: DecodeSession::Ready,
                    pending: Pending::Nothing,
                    timebase,
                    duration: n_frames,
                    position: 0,
                    ..o
                }) && actions_view(r@) == seq![
                    ActionView::Emit(EventView::LoadAudio(o.current.ncm_id, n_frames, timebase)),
                    ActionView::Emit(EventView::PlayStatus(o.is_playing)),
                ]
                &&& outcome matches DecoderOutcome::Unsupported { timebase, n_frames } ==> final(self)@
                    == finished(
                    PlayerView {
                        download: DownloadView::Error(unsupported_error()),
                        timebase,
                        duration: n_frames,
                        position: 0,
                        ..o
                    },
                ) && actions_view(r@) == seq![
                    ActionView::Emit(EventView::LoadAudio(o.current.ncm_id, n_frames, timebase)),
                ] + finish_actions()
            }),
    {
        let mut acts: Vec<PlayerAction> = Vec::new();
        proof {
            reveal_with_fuel(helper_after, 3);
        }
        if self.pending != Pending::Decoder {
            return acts;
        }
        match outcome {
            DecoderOutcome::Made { timebase, n_frames } => {
                self.pending = Pending::Nothing;
                self.session = DecodeSession::Ready;
                self.timebase = timebase;
                self.play_duration = n_frames;
                self.play_position = 0;
                acts.push(
                    PlayerAction::Emit(
                        PlayerEvent::LoadAudio {
                            ncm_id: self.current_song.ncm_id.clone(),
                            duration: n_frames,
                            timebase,
                        },
                    ),
                );
                acts.push(PlayerAction::Emit(PlayerEvent::PlayStatus { is_playing: self.is_playing }));
            },
            DecoderOutcome::Unsupported { timebase, n_frames } => {
                self.timebase = timebase;
                self.play_duration = n_frames;
                self.play_position = 0;
                acts.push(
                    PlayerAction::Emit(
                        PlayerEvent::LoadAudio {
                            ncm_id: self.current_song.ncm_id.clone(),
                            duration: n_frames,
                            timebase,
                        },
                    ),
                );
                self.download_state = DownloadStatus::Error(
                    String::from_str("the audio codec is not supported"),
                );
                let ghost first = acts@;
                let mut fin = self.finish_track();
                let ghost rest = fin@;
                acts.append(&mut fin);
                proof {
                    assert(acts@ == first + rest);
                    assert(actions_view(acts@) =~= actions_view(first) + actions_view(rest));
                    lemma_helper_after_concat(old(self)@.helper_alive, actions_view(first), actions_view(rest));
                }
            },
        }
        acts
    }

    /// Reports what reading the next packet gave. A decoded buffer moves the
    /// position and goes to the sink. The end of the bytes ends the track only
    /// once no more will come (else the download is behind and playback
    /// waits); a packet that does not decode, or any other failure to read,
    /// ends it with a failure to be reported: the track is skipped, never
    /// retried.
    /// Ignored unless a packet is awaited.
    pub fn on_packet(&mut self, outcome: PacketOutcome) -> (r: Vec<PlayerAction>)
        requires
            old(self).wf(),
        ensures
            final(self).wf(),
            helper_after(old(self)@.helper_alive, actions_view(r@)) == Some(final(self)@.helper_alive),
            progress_step(old(self)@.download, final(self)@.download),
            old(self)@.pending != Pending::Packet ==> final(self)@ == old(self)@ && r@.len() == 0,
            old(self)@.pending == Pending::Packet ==> ({
                let o = old(self)@;
                &&& outcome matches PacketOutcome::Decoded(ts) ==> final(self)@ == (PlayerView {
                    position: ts,
                    pending: Pending::Nothing,
                    ..o
                }) && actions_view(r@) == seq![
                    ActionView::Emit(EventView::PlayPosition(ts, o.timebase)),
                    ActionView::WriteDecoded,
                ]
                &&& outcome is EndOfStream && !download_ended(o.download) ==> final(self)@
                    == (PlayerView { pending: Pending::Nothing, ..o }) && actions_view(r@) == seq![
                    ActionView::Wait,
                ]
                &&& outcome is EndOfStream && download_ended(o.download) ==> final(self)@
                    == finished(o) && actions_view(r@) == finish_actions()
                &&& outcome is ReadFailed || outcome is DecodeFailed ==> final(self)@ == finished(
                    PlayerView { download: DownloadView::Error(decode_error()), ..o },
                ) && actions_view(r@) == finish_actions()
            }),
    {
        let mut acts: Vec<PlayerAction> = Vec::new();
        proof {
            reveal_with_fuel(helper_after, 3);
        }
        if self.pending != Pending::Packet {
            return acts;
        }
        match outcome {
            PacketOutcome::Decoded(ts) => {
                self.pending = Pending::Nothing;
                self.play_position = ts;
                acts.push(
                    PlayerAction::Emit(PlayerEvent::PlayPosition { ts, timebase: self.timebase }),
                );
                acts.push(PlayerAction::WriteDecoded);
            },
            PacketOutcome::DecodeFailed => {
                self.download_state = DownloadStatus::Error(
                    String::from_str("the audio could not be decoded"),
                );
                acts = self.finish_track();
            },
            PacketOutcome::EndOfStream => {
                let failed = match &self.download_state {
                    DownloadStatus::Error(_) => true,
                    _ => false,
                };
                if failed || self.download_state.is_complete() {
                    acts = self.finish_track();
                } else {
                    self.pending = Pending::Nothing;
                    acts.push(PlayerAction::Wait);
                }
            },
            PacketOutcome::ReadFailed => {
                self.download_state = DownloadStatus::Error(
                    String::from_str("the audio could not be decoded"),
                );
                acts = self.finish_track();
            },
        }
        acts
    }

    /// Applies a report of the helper thread. A URL answer is taken only
    /// while querying, byte counts and the end only while downloading; a
    /// failure in either phase fails the track. Other reports are stale and
    /// ignored. The byte count never passes the announced size.
    pub fn on_download_event(&mut self, ev: DownloadEvent)
        requires
            old(self).wf(),
        ensures
            final(self).wf(),
            progress_step(old(self)@.download, final(self)@.download),
            ({
                let o = old(self)@;
                let n = final(self)@;
                let d = o.download;
                &&& n == (PlayerView { download: n.download, ..o })
                &&& ev matches DownloadEvent::UrlResolved(url, size) ==> n.download == if d is QueryingUrl {
                    DownloadView::GetUrl(url@, size)
                } else {
                    d
                }
                &&& ev matches DownloadEvent::ResolveFailed(e) ==> n.download == if d is QueryingUrl {
                    DownloadView::Error(e@)
                } else {
                    d
                }
                &&& ev matches DownloadEvent::Received(k) ==> n.download == match d {
                    DownloadView::DownloadingAudio(done, total) => DownloadView::DownloadingAudio(
                        if done + k > total {
                            total
                        } else {
                            (done + k) as usize
                        },
                        total,
                    ),
                    _ => d,
                }
                &&& ev is Finished ==> n.download == if d is DownloadingAudio {
                    DownloadView::Downloaded
                } else {
                    d
                }
                &&& ev matches DownloadEvent::Failed(e) ==> n.download == if d is DownloadingAudio {
                    DownloadView::Error(e@)
                } else {
                    d
                }
            }),
    {
        let querying = match &self.download_state {
            DownloadStatus::QueryingUrl => true,
            _ => false,
        };
        let progress: Option<(usize, usize)> = match &self.download_state {
            DownloadStatus::DownloadingAudio(done, total) => Some((*done, *total)),
            _ => None,
        };
        match ev {
            DownloadEvent::UrlResolved(url, size) => {
                if querying {
                    self.download_state = DownloadStatus::GetUrl(url, size);
                }
            },
            DownloadEvent::ResolveFailed(e) => {
                if querying {
                    self.download_state = DownloadStatus::Error(e);
                }
            },
            DownloadEvent::Received(k) => {
                if let Some((done, total)) = progress {
                    let next = if k > total - done {
                        total
                    } else {
                        done + k
                    };
                    self.download_state = DownloadStatus::DownloadingAudio(next, total);
                }
            },
            DownloadEvent::Finished => {
                if progress.is_some() {
                    self.download_state = DownloadStatus::Downloaded;
                }
            },
            DownloadEvent::Failed(e) => {
                if progress.is_some() {
                    self.download_state = DownloadStatus::Error(e);
                }
            },
        }
    }
}

/// The action logs of a run of steps, one after the other.
pub open spec fn concat_logs(logs: Seq<Seq<ActionView>>) -> Seq<ActionView>
    decreases logs.len(),
{
    if logs.len() == 0 {
        Seq::empty()
    } else {
        concat_logs(logs.drop_last()) + logs.last()
    }
}

proof fn lemma_helper_after_concat(live: bool, a: Seq<ActionView>, b: Seq<ActionView>)
    ensures
        helper_after(live, a + b) == match helper_after(live, a) {
            Some(m) => helper_after(m, b),
            None => None,
        },
    decreases a.len(),
{
    if a.len() == 0 {
        assert(a + b =~= b);
    } else {
        assert((a + b).skip(1) =~= a.skip(1) + b);
        assert((a + b)[0] == a[0]);
        match a[0] {
            ActionView::StopDownload => lemma_helper_after_concat(false, a.skip(1), b),
            ActionView::ResolveUrl(_) => if !live {
                lemma_helper_after_concat(true, a.skip(1), b)
            },
            ActionView::StartDownload(_, _) => if !live {
                lemma_helper_after_concat(true, a.skip(1), b)
            },
            _ => lemma_helper_after_concat(live, a.skip(1), b),
        }
    }
}

/// At most one helper thread at a time: over any run of steps where each
/// step, performed from the helper state the previous one left, starts no
/// helper while one is live (every step of [`AudioPlayer`] ensures this),
/// the whole log of actions never starts a second helper while one is live.
pub proof fn lemma_one_helper_at_a_time(lives: Seq<bool>, logs: Seq<Seq<ActionView>>)
    requires
        lives.len() == logs.len() + 1,
        forall|k: int| 0 <= k < logs.len() ==> helper_after(lives[k], #[trigger] logs[k]) == Some(
            lives[k + 1],
        ),
    ensures
        helper_after(lives[0], concat_logs(logs)) == Some(lives.last()),
    decreases logs.len(),
{
    if logs.len() == 0 {
    } else {
        let n = logs.len() - 1;
        lemma_one_helper_at_a_time(lives.drop_last(), logs.drop_last());
        assert(lives.drop_last()[0] == lives[0]);
        assert(lives.drop_last().last() == lives[n]);
        lemma_helper_after_concat(lives[0], concat_logs(logs.drop_last()), logs.last());
        assert(helper_after(lives[n], logs[n]) == Some(lives[n + 1]));
    }
}

/// Progress never falls within one download: over any run of download
/// states, each following the one before by a step of the machine (which
/// keeps [`progress_step`]) and all of them downloading, a later sample
/// shows at least as many bytes as an earlier one, against the same
/// announced size.
pub proof fn lemma_progress_monotonic(states: Seq<DownloadView>, i: int, j: int)
    requires
        forall|k: int| 0 <= k < states.len() - 1 ==> progress_step(#[trigger] states[k], states[k + 1]),
        forall|k: int| 0 <= k < states.len() ==> #[trigger] states[k] is DownloadingAudio,
        0 <= i <= j < states.len(),
    ensures
        states[j]->DownloadingAudio_0 >= states[i]->DownloadingAudio_0,
        states[j]->DownloadingAudio_1 == states[i]->DownloadingAudio_1,
    decreases j - i,
{
    if i < j {
        lemma_progress_monotonic(states, i, j - 1);
        assert(progress_step(states[j - 1], states[j]));
        assert(states[j - 1] is DownloadingAudio);
        assert(states[j] is DownloadingAudio);
    }
}

/// The playlist cursor, for a list of `len` tracks and a current track `c`:
/// advancing from the last track wraps to the first; jumping to track 0, or
/// to any track `n`, makes the next advance land on it; and going back makes
/// the next advance land on the track before `c`, the last one before the first.
pub proof fn lemma_playlist_cursor(len: usize, c: usize, n: usize)
    requires
        len > 0,
        c < len,
        n < len,
    ensures
        advance_index((len - 1) as usize, len as nat) == 0,
        advance_index(jump_index(0, len as nat), len as nat) == 0,
        advance_index(jump_index(n, len as nat), len as nat) == n,
        advance_index(prev_index(c, len as nat), len as nat) == (c + len - 1) % (len as int),
{
    if len <= 2 {
        if c + 1 >= len {
            assert((c + len - 1) % (len as int) == 0);
        } else {
            assert((c + len - 1) % (len as int) == c + 1);
        }
    } else if c == 0 {
        lemma_small_mod((len - 1) as nat, len as nat);
    } else if c == 1 {
        lemma_mod_self_0(len as int);
    } else {
        lemma_mod_add_multiples_vanish(c - 1, len as int);
        lemma_small_mod((c - 1) as nat, len as nat);
        assert(len + (c - 1) == c + len - 1);
    }
}

} // verus!
