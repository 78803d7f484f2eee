use mrbncm::audio::{AudioThreadMessage, SongData};
use mrbncm::eapi::song_url_form;
use mrbncm::player::{
    AudioPlayer, DecodeSession, DecoderOutcome, DownloadEvent, DownloadStatus, LoadProgress,
    LocalFileOutcome, PacketOutcome, PlayerAction, PlayerEvent, ProbeOutcome, TimeBase,
};

fn song(id: &str, local: &str) -> SongData {
    SongData { ncm_id: id.to_string(), local_file: local.to_string(), duration: 0, orig_order: 0 }
}

fn playlist(n: usize) -> Vec<SongData> {
    (0..n).map(|i| song(&format!("{i}"), "")).collect()
}

fn cb() -> String {
    "cb".to_string()
}

fn with_playlist(n: usize) -> AudioPlayer {
    let mut p = AudioPlayer::new();
    p.process_message(AudioThreadMessage::SetPlaylist { callback_id: cb(), songs: playlist(n) });
    p
}

fn loading_id(acts: &[PlayerAction]) -> Option<String> {
    acts.iter().find_map(|a| match a {
        PlayerAction::Emit(PlayerEvent::LoadingAudio { ncm_id }) => Some(ncm_id.clone()),
        _ => None,
    })
}

#[test]
fn new_engine_is_idle() {
    let p = AudioPlayer::new();
    assert!(!p.is_playing());
    assert_eq!(p.current_index(), 0);
    assert!(matches!(p.download_state(), DownloadStatus::Idle));
    assert!(!p.helper_alive());
    assert_eq!(p.session(), DecodeSession::Absent);
}

#[test]
fn tick_with_empty_playlist_stops_playback() {
    let mut p = AudioPlayer::new();
    p.process_message(AudioThreadMessage::ResumeAudio { callback_id: cb() });
    assert!(p.is_playing());
    assert!(p.process_audio().is_empty());
    assert!(!p.is_playing());
}

#[test]
fn resume_and_pause_report_play_status() {
    let mut p = AudioPlayer::new();
    let acts = p.process_message(AudioThreadMessage::ResumeAudio { callback_id: cb() });
    assert!(matches!(acts[0], PlayerAction::PlayStream));
    assert!(matches!(acts[1], PlayerAction::Emit(PlayerEvent::PlayStatus { is_playing: true })));
    assert!(matches!(acts[2], PlayerAction::Reply));
    let acts = p.process_message(AudioThreadMessage::PauseAudio { callback_id: cb() });
    assert!(matches!(acts[0], PlayerAction::PauseStream));
    assert!(matches!(acts[1], PlayerAction::Emit(PlayerEvent::PlayStatus { is_playing: false })));
    assert!(!p.is_playing());
}

#[test]
fn set_cookie_is_applied_and_acknowledged() {
    let mut p = AudioPlayer::new();
    let acts = p.process_message(AudioThreadMessage::SetCookie { callback_id: cb(), cookie: "MUSIC_U=1".to_string() });
    assert!(matches!(&acts[0], PlayerAction::ApplyCookie(c) if c == "MUSIC_U=1"));
    assert!(matches!(acts[1], PlayerAction::Reply));
    assert_eq!(acts.len(), 2);
}

#[test]
fn set_playlist_puts_the_cursor_past_the_end() {
    let p = with_playlist(5);
    assert_eq!(p.current_index(), 5);
}

#[test]
fn previous_and_next_from_index_two_of_five() {
    let mut p = with_playlist(5);
    p.process_message(AudioThreadMessage::JumpToSong { callback_id: cb(), song_index: 2 });
    let acts = p.process_audio();
    assert_eq!(p.current_index(), 2);
    assert_eq!(loading_id(&acts).as_deref(), Some("2"));
    let acts = p.process_message(AudioThreadMessage::PrevSong { callback_id: cb() });
    assert!(matches!(acts[0], PlayerAction::StopDownload));
    assert_eq!(p.current_index(), 0);
    let acts = p.process_audio();
    assert_eq!(p.current_index(), 1);
    assert_eq!(loading_id(&acts).as_deref(), Some("1"));
}

#[test]
fn next_from_the_last_track_wraps_to_the_first() {
    let mut p = with_playlist(5);
    p.process_message(AudioThreadMessage::JumpToSong { callback_id: cb(), song_index: 4 });
    p.process_audio();
    assert_eq!(p.current_index(), 4);
    p.on_local_file(LocalFileOutcome::Missing);
    p.process_message(AudioThreadMessage::NextSong { callback_id: cb() });
    let acts = p.process_audio();
    assert_eq!(p.current_index(), 0);
    assert_eq!(loading_id(&acts).as_deref(), Some("0"));
}

#[test]
fn jump_to_zero_wraps_to_the_first_track() {
    let mut p = with_playlist(5);
    p.process_message(AudioThreadMessage::JumpToSong { callback_id: cb(), song_index: 3 });
    p.process_audio();
    p.on_local_file(LocalFileOutcome::Missing);
    p.process_message(AudioThreadMessage::JumpToSong { callback_id: cb(), song_index: 0 });
    assert_eq!(p.current_index(), 5);
    p.process_audio();
    assert_eq!(p.current_index(), 0);
}

#[test]
fn previous_from_the_first_two_tracks_wraps() {
    for (start, expected) in [(0usize, 4usize), (1, 0)] {
        let mut p = with_playlist(5);
        p.process_message(AudioThreadMessage::JumpToSong { callback_id: cb(), song_index: start });
        p.process_audio();
        assert_eq!(p.current_index(), start);
        p.on_local_file(LocalFileOutcome::Missing);
        p.process_message(AudioThreadMessage::PrevSong { callback_id: cb() });
        p.process_audio();
        assert_eq!(p.current_index(), expected);
    }
}

#[test]
fn previous_in_a_short_playlist_keeps_the_cursor() {
    let mut p = with_playlist(2);
    p.process_message(AudioThreadMessage::JumpToSong { callback_id: cb(), song_index: 1 });
    p.process_audio();
    p.on_local_file(LocalFileOutcome::Missing);
    p.process_message(AudioThreadMessage::PrevSong { callback_id: cb() });
    assert_eq!(p.current_index(), 1);
    p.process_audio();
    assert_eq!(p.current_index(), 0);
}

#[test]
fn progress_of_each_download_state() {
    assert_eq!(DownloadStatus::Idle.get_download_progress(), LoadProgress::Complete);
    assert_eq!(DownloadStatus::QueryingUrl.get_download_progress(), LoadProgress::Querying);
    assert_eq!(DownloadStatus::GetUrl("u".to_string(), 9).get_download_progress(), LoadProgress::Partial(0, 9));
    assert_eq!(DownloadStatus::DownloadingAudio(3, 9).get_download_progress(), LoadProgress::Partial(3, 9));
    assert_eq!(DownloadStatus::Downloaded.get_download_progress(), LoadProgress::Complete);
    assert_eq!(DownloadStatus::Error("e".to_string()).get_download_progress(), LoadProgress::Failed);
    assert!(DownloadStatus::DownloadingAudio(9, 9).is_complete());
    assert!(!DownloadStatus::DownloadingAudio(8, 9).is_complete());
    assert!(!DownloadStatus::DownloadingAudio(0, 0).is_complete());
}

/// Plays the engine against a scripted world: track "1" is a local file,
/// track "2" has no URL, track "3" downloads in three chunks. A counting
/// guard checks that no helper starts while another is live.
struct World {
    live_helpers: u32,
    max_live: u32,
    pending_events: Vec<DownloadEvent>,
    chunks_left: u32,
    packets_left: u32,
    log: Vec<String>,
    progress: Vec<(usize, usize)>,
}

impl World {
    fn new() -> World {
        World { live_helpers: 0, max_live: 0, pending_events: Vec::new(), chunks_left: 0, packets_left: 0, log: Vec::new(), progress: Vec::new() }
    }

    fn perform(&mut self, p: &mut AudioPlayer, acts: Vec<PlayerAction>) {
        for a in acts {
            let more = match a {
                PlayerAction::StopDownload => {
                    self.live_helpers = 0;
                    self.pending_events.clear();
                    Vec::new()
                }
                PlayerAction::ResolveUrl(body) => {
                    assert_eq!(self.live_helpers, 0);
                    self.live_helpers += 1;
                    self.max_live = self.max_live.max(self.live_helpers);
                    let url = if body == song_url_form("3") { "http://host/3.flac" } else { "" };
                    self.pending_events.push(DownloadEvent::UrlResolved(url.to_string(), 3000));
                    Vec::new()
                }
                PlayerAction::StartDownload(_, _) => {
                    assert_eq!(self.live_helpers, 0);
                    self.live_helpers += 1;
                    self.max_live = self.max_live.max(self.live_helpers);
                    self.chunks_left = 3;
                    Vec::new()
                }
                PlayerAction::OpenLocal(path) => {
                    let outcome = if path == "track1.ncm" { LocalFileOutcome::Recognised } else { LocalFileOutcome::Missing };
                    p.on_local_file(outcome)
                }
                PlayerAction::ProbeDownload => {
                    let outcome = match p.download_state() {
                        DownloadStatus::DownloadingAudio(done, _) if *done >= 1000 => ProbeOutcome::Recognised,
                        _ => ProbeOutcome::NotYet,
                    };
                    p.on_probe(outcome)
                }
                PlayerAction::MakeDecoder => {
                    self.packets_left = 4;
                    p.on_decoder(DecoderOutcome::Made { timebase: TimeBase { numer: 1, denom: 1000 }, n_frames: 4000 })
                }
                PlayerAction::NextPacket => {
                    if self.packets_left > 0 {
                        let ts = (4 - self.packets_left) as u64 * 1000;
                        self.packets_left -= 1;
                        p.on_packet(PacketOutcome::Decoded(ts))
                    } else {
                        p.on_packet(PacketOutcome::EndOfStream)
                    }
                }
                PlayerAction::Emit(ev) => {
                    match ev {
                        PlayerEvent::LoadingAudio { ncm_id } => self.log.push(format!("loading {ncm_id}")),
                        PlayerEvent::LoadAudio { ncm_id, duration, .. } => self.log.push(format!("load {ncm_id} {duration}")),
                        PlayerEvent::PlayPosition { ts, .. } => self.log.push(format!("pos {ts}")),
                        PlayerEvent::LoadError { error } => self.log.push(format!("error {error}")),
                        PlayerEvent::LoadProgress { progress: LoadProgress::Partial(d, t) } => self.progress.push((d, t)),
                        _ => {}
                    }
                    Vec::new()
                }
                _ => Vec::new(),
            };
            self.perform(p, more);
        }
    }

    fn deliver(&mut self, p: &mut AudioPlayer) {
        for ev in std::mem::take(&mut self.pending_events) {
            p.on_download_event(ev);
        }
        if self.chunks_left > 0 && matches!(p.download_state(), DownloadStatus::DownloadingAudio(..)) {
            self.chunks_left -= 1;
            p.on_download_event(DownloadEvent::Received(1000));
            if self.chunks_left == 0 {
                p.on_download_event(DownloadEvent::Finished);
            }
        }
    }
}

fn three_tracks() -> Vec<SongData> {
    vec![song("1", "track1.ncm"), song("2", ""), song("3", "")]
}

fn run_until_track_one_again(p: &mut AudioPlayer, w: &mut World) {
    for _ in 0..200 {
        w.deliver(p);
        let acts = p.process_audio();
        w.perform(p, acts);
        if w.log.iter().filter(|l| *l == "loading 1").count() == 2 {
            return;
        }
    }
    panic!("the playlist did not come round");
}

#[test]
fn end_to_end_three_tracks() {
    let mut p = AudioPlayer::new();
    let mut w = World::new();
    let acts = p.process_message(AudioThreadMessage::SetPlaylist { callback_id: cb(), songs: three_tracks() });
    w.perform(&mut p, acts);
    let acts = p.process_message(AudioThreadMessage::JumpToSong { callback_id: cb(), song_index: 0 });
    w.perform(&mut p, acts);
    run_until_track_one_again(&mut p, &mut w);
    let expected = vec![
        "loading 1",
        "load 1 4000",
        "pos 0",
        "pos 1000",
        "pos 2000",
        "pos 3000",
        "loading 2",
        "error no playable URL for the track",
        "loading 3",
        "load 3 4000",
        "pos 0",
        "pos 1000",
        "pos 2000",
        "pos 3000",
        "loading 1",
    ];
    assert_eq!(w.log, expected);
    assert_eq!(w.max_live, 1);
}

#[test]
fn progress_never_falls_within_a_download() {
    let mut p = AudioPlayer::new();
    let mut w = World::new();
    let acts = p.process_message(AudioThreadMessage::SetPlaylist { callback_id: cb(), songs: three_tracks() });
    w.perform(&mut p, acts);
    let acts = p.process_message(AudioThreadMessage::JumpToSong { callback_id: cb(), song_index: 3 });
    w.perform(&mut p, acts);
    run_until_track_one_again(&mut p, &mut w);
    assert!(w.progress.len() >= 3);
    for pair in w.progress.windows(2) {
        if pair[1].0 != 0 {
            assert!(pair[1].0 >= pair[0].0);
            assert_eq!(pair[1].1, pair[0].1);
        }
    }
}

#[test]
fn switching_track_mid_download_joins_the_helper_first() {
    let mut p = AudioPlayer::new();
    let mut w = World::new();
    let acts = p.process_message(AudioThreadMessage::SetPlaylist { callback_id: cb(), songs: three_tracks() });
    w.perform(&mut p, acts);
    let acts = p.process_message(AudioThreadMessage::JumpToSong { callback_id: cb(), song_index: 2 });
    w.perform(&mut p, acts);
    for _ in 0..4 {
        w.deliver(&mut p);
        let acts = p.process_audio();
        w.perform(&mut p, acts);
    }
    assert!(p.helper_alive());
    for msg in [
        AudioThreadMessage::NextSong { callback_id: cb() },
        AudioThreadMessage::PrevSong { callback_id: cb() },
        AudioThreadMessage::JumpToSong { callback_id: cb(), song_index: 2 },
    ] {
        let acts = p.process_message(msg);
        assert!(matches!(acts[0], PlayerAction::StopDownload));
        assert!(!p.helper_alive());
        assert!(matches!(p.download_state(), DownloadStatus::Idle));
        w.perform(&mut p, acts);
        for _ in 0..3 {
            w.deliver(&mut p);
            let acts = p.process_audio();
            w.perform(&mut p, acts);
        }
    }
    assert_eq!(w.max_live, 1);
}

#[test]
fn stale_download_reports_are_ignored() {
    let mut p = with_playlist(3);
    p.on_download_event(DownloadEvent::Received(10));
    p.on_download_event(DownloadEvent::Finished);
    p.on_download_event(DownloadEvent::UrlResolved("u".to_string(), 3));
    assert!(matches!(p.download_state(), DownloadStatus::Idle));
}

#[test]
fn empty_probe_after_the_last_byte_fails_the_track() {
    let mut p = with_playlist(1);
    p.process_message(AudioThreadMessage::ResumeAudio { callback_id: cb() });
    p.process_audio();
    p.on_local_file(LocalFileOutcome::Missing);
    p.on_download_event(DownloadEvent::UrlResolved("http://h/x".to_string(), 10));
    p.process_audio();
    p.on_download_event(DownloadEvent::Received(10));
    p.process_audio();
    assert!(p.on_probe(ProbeOutcome::NotYet).is_empty());
    assert!(matches!(p.download_state(), DownloadStatus::Downloaded));
    p.process_audio();
    p.on_probe(ProbeOutcome::NotYet);
    assert!(matches!(p.download_state(), DownloadStatus::Error(_)));
    let acts = p.process_audio();
    assert!(matches!(&acts[0], PlayerAction::Emit(PlayerEvent::LoadError { error }) if error == "the audio container was not recognised"));
    assert!(matches!(p.download_state(), DownloadStatus::Idle));
}

#[test]
fn end_of_stream_while_downloading_waits() {
    let mut p = with_playlist(1);
    p.process_message(AudioThreadMessage::ResumeAudio { callback_id: cb() });
    p.process_audio();
    p.on_local_file(LocalFileOutcome::Missing);
    p.on_download_event(DownloadEvent::UrlResolved("http://h/x".to_string(), 10));
    p.process_audio();
    p.on_download_event(DownloadEvent::Received(4));
    p.process_audio();
    p.on_probe(ProbeOutcome::Recognised);
    p.process_audio();
    p.on_decoder(DecoderOutcome::Made { timebase: TimeBase { numer: 1, denom: 10 }, n_frames: 10 });
    p.process_audio();
    let acts = p.on_packet(PacketOutcome::EndOfStream);
    assert!(matches!(acts[0], PlayerAction::Wait));
    assert_eq!(p.session(), DecodeSession::Ready);
    p.process_audio();
    let acts = p.on_packet(PacketOutcome::ReadFailed);
    assert!(matches!(acts[0], PlayerAction::ClearDecoder));
    assert!(matches!(acts[1], PlayerAction::StopDownload));
    assert_eq!(p.session(), DecodeSession::Absent);
    let acts = p.process_audio();
    assert!(matches!(&acts[0], PlayerAction::Emit(PlayerEvent::LoadError { error }) if error == "the audio could not be decoded"));
}

#[test]
fn unsupported_codec_ends_the_track_with_an_error() {
    let mut p = with_playlist(1);
    p.process_message(AudioThreadMessage::ResumeAudio { callback_id: cb() });
    p.process_audio();
    p.on_local_file(LocalFileOutcome::Recognised);
    p.process_audio();
    let acts = p.on_decoder(DecoderOutcome::Unsupported { timebase: TimeBase { numer: 1, denom: 100 }, n_frames: 2500 });
    assert_eq!(acts.len(), 3);
    assert!(matches!(&acts[0], PlayerAction::Emit(PlayerEvent::LoadAudio { ncm_id, duration: 2500, .. }) if ncm_id == "0"));
    assert!(matches!(acts[1], PlayerAction::ClearDecoder));
    assert!(matches!(acts[2], PlayerAction::StopDownload));
    let acts = p.process_audio();
    assert!(matches!(&acts[0], PlayerAction::Emit(PlayerEvent::LoadError { error }) if error == "the audio codec is not supported"));
}

#[test]
fn unrecognised_local_file_fails_the_track() {
    let mut p = with_playlist(2);
    p.process_audio();
    assert!(p.on_local_file(LocalFileOutcome::Unrecognised).is_empty());
    let acts = p.process_audio();
    assert!(matches!(&acts[0], PlayerAction::Emit(PlayerEvent::LoadError { .. })));
}

#[test]
fn sync_status_reports_the_state() {
    let mut p = with_playlist(2);
    let acts = p.process_message(AudioThreadMessage::SyncStatus);
    assert_eq!(acts.len(), 1);
    match &acts[0] {
        PlayerAction::Emit(PlayerEvent::SyncStatus { is_playing, load_progress, playlist, .. }) => {
            assert!(!is_playing);
            assert_eq!(*load_progress, LoadProgress::Complete);
            assert_eq!(playlist.len(), 2);
            assert_eq!(playlist[1].ncm_id, "1");
        }
        _ => panic!("expected a status report"),
    }
}

#[test]
fn byte_counts_stop_at_the_announced_size() {
    let mut p = with_playlist(1);
    p.process_audio();
    p.on_local_file(LocalFileOutcome::Missing);
    p.on_download_event(DownloadEvent::UrlResolved("http://h/x".to_string(), 10));
    p.process_audio();
    p.on_download_event(DownloadEvent::Received(6));
    assert!(matches!(p.download_state(), DownloadStatus::DownloadingAudio(6, 10)));
    p.on_download_event(DownloadEvent::Received(5));
    assert!(matches!(p.download_state(), DownloadStatus::DownloadingAudio(10, 10)));
    p.on_download_event(DownloadEvent::Received(usize::MAX));
    assert!(matches!(p.download_state(), DownloadStatus::DownloadingAudio(10, 10)));
    let acts = p.process_audio();
    assert!(matches!(acts[0], PlayerAction::Emit(PlayerEvent::LoadProgress { progress: LoadProgress::Partial(10, 10) })));
}

#[test]
fn a_packet_that_does_not_decode_ends_the_track() {
    let mut p = with_playlist(2);
    p.process_message(AudioThreadMessage::ResumeAudio { callback_id: cb() });
    p.process_audio();
    p.on_local_file(LocalFileOutcome::Recognised);
    p.process_audio();
    p.on_decoder(DecoderOutcome::Made { timebase: TimeBase { numer: 1, denom: 10 }, n_frames: 10 });
    p.process_audio();
    let acts = p.on_packet(PacketOutcome::DecodeFailed);
    assert!(matches!(acts[0], PlayerAction::ClearDecoder));
    assert!(matches!(acts[1], PlayerAction::StopDownload));
    assert_eq!(p.session(), DecodeSession::Absent);
    let acts = p.process_audio();
    assert!(matches!(&acts[0], PlayerAction::Emit(PlayerEvent::LoadError { error }) if error == "the audio could not be decoded"));
    assert_eq!(loading_id(&acts), None);
    let acts = p.process_audio();
    assert_eq!(loading_id(&acts).as_deref(), Some("1"));
}

#[test]
fn new_engine_has_the_default_track() {
    let p = AudioPlayer::new();
    let acts = {
        let mut q = p;
        q.process_message(AudioThreadMessage::SyncStatus)
    };
    match &acts[0] {
        PlayerAction::Emit(PlayerEvent::SyncStatus { ncm_id, duration, position, .. }) => {
            assert_eq!(ncm_id, "");
            assert_eq!((*duration, *position), (0, 0));
        }
        _ => panic!("expected a status report"),
    }
}
