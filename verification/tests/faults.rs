use playback::{
    Action, AudioKey, Event, FileId, LoadRequest, PlaybackStatus, PlayerCommand, PlayerError,
    TrackId, Worker,
};

const TRACK: TrackId = TrackId(77);
const FILE: FileId = FileId([9; 20]);
const OTHER_FILE: FileId = FileId([3; 20]);
const KEY: AudioKey = AudioKey([5; 16]);

fn request(autoplay: bool, start_ms: u32) -> PlayerCommand {
    PlayerCommand::Load(LoadRequest { track: TRACK, autoplay, start_ms })
}

fn ok(worker: &mut Worker, event: Event, now: i64) {
    assert_eq!(worker.handle(event, now), Ok(()));
}

/// A worker whose load has been taken up and whose track is being resolved.
fn resolving(autoplay: bool) -> Worker {
    let mut worker = Worker::new(0);
    ok(&mut worker, Event::Command(request(autoplay, 100)), 1);
    assert_eq!(worker.next_action(), Action::ResolveTrack(TRACK));
    worker
}

/// A worker whose decoder session is about to be built.
fn opening(autoplay: bool) -> Worker {
    let mut worker = resolving(autoplay);
    ok(&mut worker, Event::TrackResolved(vec![FILE, OTHER_FILE]), 2);
    assert_eq!(worker.next_action(), Action::FetchKey(TRACK, FILE));
    ok(&mut worker, Event::KeyFetched(KEY), 3);
    assert_eq!(
        worker.next_action(),
        Action::OpenDecoder { file: FILE, key: KEY, header_offset: 167 }
    );
    worker
}

/// A worker that plays and is about to pull a packet.
fn playing() -> Worker {
    let mut worker = opening(true);
    ok(&mut worker, Event::DecoderOpened, 4);
    assert_eq!(worker.next_action(), Action::SeekDecoder(100));
    ok(&mut worker, Event::Seeked(100), 5);
    assert_eq!(worker.next_action(), Action::StartDevice);
    ok(&mut worker, Event::DeviceStarted, 6);
    assert_eq!(worker.state().status(), PlaybackStatus::Playing);
    assert_eq!(worker.next_action(), Action::PullPacket);
    worker
}

/// A worker that is paused on a loaded track and awaits a command.
fn paused() -> Worker {
    let mut worker = opening(false);
    ok(&mut worker, Event::DecoderOpened, 4);
    ok(&mut worker, Event::Seeked(100), 5);
    assert_eq!(worker.state().status(), PlaybackStatus::Paused);
    assert_eq!(worker.next_action(), Action::WaitCommand);
    worker
}

fn assert_stopped_without_session(worker: &Worker, at: i64, revision: u64) {
    let state = worker.state();
    assert_eq!(state.status(), PlaybackStatus::Stopped);
    assert_eq!(state.update_time(), at);
    assert_eq!(state.revision(), revision);
    assert!(!worker.has_session());
    assert_eq!(worker.next_action(), Action::WaitCommand);
}

#[test]
fn unresolved_track_ends_the_load_in_stopped() {
    let mut worker = resolving(true);
    assert_eq!(worker.state().status(), PlaybackStatus::Loading);
    assert_eq!(worker.handle(Event::TrackUnresolved, 9), Err(PlayerError::MetadataUnresolved));
    assert_stopped_without_session(&worker, 9, 2);
}

#[test]
fn track_without_files_ends_the_load_in_stopped() {
    let mut worker = resolving(false);
    assert_eq!(
        worker.handle(Event::TrackResolved(Vec::new()), 9),
        Err(PlayerError::MetadataUnresolved)
    );
    assert_stopped_without_session(&worker, 9, 2);
}

#[test]
fn the_first_file_of_a_track_is_chosen() {
    let mut worker = resolving(false);
    ok(&mut worker, Event::TrackResolved(vec![OTHER_FILE, FILE]), 2);
    assert_eq!(worker.next_action(), Action::FetchKey(TRACK, OTHER_FILE));
    ok(&mut worker, Event::KeyFetched(KEY), 3);
    assert_eq!(
        worker.next_action(),
        Action::OpenDecoder { file: OTHER_FILE, key: KEY, header_offset: 0xa7 }
    );
}

#[test]
fn denied_key_ends_the_load_in_stopped() {
    let mut worker = resolving(true);
    ok(&mut worker, Event::TrackResolved(vec![FILE]), 2);
    assert_eq!(worker.handle(Event::KeyDenied, 12), Err(PlayerError::KeyFetchFailed));
    assert_stopped_without_session(&worker, 12, 2);
}

#[test]
fn unavailable_stream_ends_the_load_in_stopped() {
    let mut worker = opening(true);
    assert_eq!(worker.handle(Event::StreamUnavailable, 15), Err(PlayerError::StreamOpenFailed));
    assert_stopped_without_session(&worker, 15, 2);
}

#[test]
fn rejected_stream_ends_the_load_in_stopped() {
    let mut worker = opening(true);
    assert_eq!(
        worker.handle(Event::DecoderRejected, 15),
        Err(PlayerError::DecoderConstructionFailed)
    );
    assert_stopped_without_session(&worker, 15, 2);
}

#[test]
fn failed_first_seek_discards_the_new_session() {
    let mut worker = opening(false);
    ok(&mut worker, Event::DecoderOpened, 4);
    assert_eq!(worker.handle(Event::DecoderFault, 5), Err(PlayerError::DecoderFault));
    assert_eq!(worker.state().status(), PlaybackStatus::Stopped);
    assert!(worker.has_session());
    assert_eq!(worker.next_action(), Action::DiscardDecoder);
    ok(&mut worker, Event::DecoderDiscarded, 6);
    assert_stopped_without_session(&worker, 5, 2);
}

#[test]
fn device_that_does_not_start_ends_the_load_in_stopped() {
    let mut worker = opening(true);
    ok(&mut worker, Event::DecoderOpened, 4);
    ok(&mut worker, Event::Seeked(100), 5);
    assert_eq!(worker.handle(Event::DeviceFault, 6), Err(PlayerError::DeviceFault));
    assert_eq!(worker.state().status(), PlaybackStatus::Stopped);
    assert_eq!(worker.next_action(), Action::DiscardDecoder);
    ok(&mut worker, Event::DecoderDiscarded, 7);
    assert_stopped_without_session(&worker, 6, 2);
}

#[test]
fn a_failed_load_can_be_followed_by_another() {
    let mut worker = resolving(true);
    assert_eq!(worker.handle(Event::TrackUnresolved, 9), Err(PlayerError::MetadataUnresolved));
    ok(&mut worker, Event::Command(request(false, 0)), 10);
    assert_eq!(worker.state().status(), PlaybackStatus::Loading);
    assert_eq!(worker.next_action(), Action::ResolveTrack(TRACK));
}

#[test]
fn gap_is_skipped_without_a_write() {
    let mut worker = playing();
    let before = worker.state();
    ok(&mut worker, Event::Gap, 7);
    assert_eq!(worker.state(), before);
    assert_eq!(worker.next_action(), Action::PollCommand);
    ok(&mut worker, Event::NoCommand, 8);
    assert_eq!(worker.next_action(), Action::PullPacket);
}

#[test]
fn underflow_is_absorbed() {
    let mut worker = playing();
    ok(&mut worker, Event::Packet(120), 7);
    assert_eq!(worker.next_action(), Action::WritePacket);
    ok(&mut worker, Event::Underflow, 8);
    let state = worker.state();
    assert_eq!(state.status(), PlaybackStatus::Playing);
    assert_eq!(state.position(), (120, 8));
    assert_eq!(state.update_time(), 6);
    assert_eq!(worker.next_action(), Action::PollCommand);
}

#[test]
fn end_of_stream_stops_the_device_and_the_player() {
    let mut worker = playing();
    ok(&mut worker, Event::EndOfStream, 7);
    assert_eq!(worker.state().status(), PlaybackStatus::Playing);
    assert_eq!(worker.next_action(), Action::StopDevice);
    ok(&mut worker, Event::DeviceStopped, 8);
    assert_eq!(worker.state().status(), PlaybackStatus::Stopped);
    assert_eq!(worker.next_action(), Action::DiscardDecoder);
    ok(&mut worker, Event::DecoderDiscarded, 9);
    assert_stopped_without_session(&worker, 8, 3);
    assert_eq!(
        worker.handle(Event::Command(PlayerCommand::Play), 10),
        Err(PlayerError::NotLoaded)
    );
}

#[test]
fn decoder_fault_while_playing_stops_the_player() {
    let mut worker = playing();
    assert_eq!(worker.handle(Event::DecoderFault, 7), Err(PlayerError::DecoderFault));
    assert_eq!(worker.next_action(), Action::StopDevice);
    ok(&mut worker, Event::DeviceStopped, 8);
    ok(&mut worker, Event::DecoderDiscarded, 9);
    assert_stopped_without_session(&worker, 8, 3);
}

#[test]
fn device_fault_on_write_stops_the_player() {
    let mut worker = playing();
    ok(&mut worker, Event::Packet(120), 7);
    assert_eq!(worker.handle(Event::DeviceFault, 8), Err(PlayerError::DeviceFault));
    assert_eq!(worker.state().position(), (100, 6));
    assert_eq!(worker.next_action(), Action::StopDevice);
    assert_eq!(worker.handle(Event::DeviceFault, 9), Err(PlayerError::DeviceFault));
    assert_eq!(worker.state().status(), PlaybackStatus::Stopped);
    ok(&mut worker, Event::DecoderDiscarded, 10);
    assert_stopped_without_session(&worker, 9, 3);
}

#[test]
fn device_fault_on_pause_stops_the_player() {
    let mut worker = playing();
    ok(&mut worker, Event::Gap, 7);
    ok(&mut worker, Event::Command(PlayerCommand::Pause), 8);
    assert_eq!(worker.next_action(), Action::StopDevice);
    assert_eq!(worker.handle(Event::DeviceFault, 9), Err(PlayerError::DeviceFault));
    assert_eq!(worker.state().status(), PlaybackStatus::Stopped);
    ok(&mut worker, Event::DecoderDiscarded, 10);
    assert_stopped_without_session(&worker, 9, 3);
}

#[test]
fn device_fault_on_play_stops_the_player() {
    let mut worker = paused();
    ok(&mut worker, Event::Command(PlayerCommand::Play), 8);
    assert_eq!(worker.next_action(), Action::StartDevice);
    assert_eq!(worker.handle(Event::DeviceFault, 9), Err(PlayerError::DeviceFault));
    assert_eq!(worker.state().status(), PlaybackStatus::Stopped);
    assert_eq!(worker.next_action(), Action::DiscardDecoder);
}

#[test]
fn failed_seek_while_paused_stops_the_player() {
    let mut worker = paused();
    ok(&mut worker, Event::Command(PlayerCommand::Seek(40_000)), 8);
    assert_eq!(worker.next_action(), Action::SeekDecoder(40_000));
    assert_eq!(worker.handle(Event::DecoderFault, 9), Err(PlayerError::DecoderFault));
    assert_eq!(worker.state().status(), PlaybackStatus::Stopped);
    assert_eq!(worker.next_action(), Action::DiscardDecoder);
}

#[test]
fn failed_seek_while_playing_stops_the_device_first() {
    let mut worker = playing();
    ok(&mut worker, Event::Gap, 7);
    ok(&mut worker, Event::Command(PlayerCommand::Seek(40_000)), 8);
    assert_eq!(worker.handle(Event::DecoderFault, 9), Err(PlayerError::DecoderFault));
    assert_eq!(worker.state().status(), PlaybackStatus::Playing);
    assert_eq!(worker.next_action(), Action::StopDevice);
    ok(&mut worker, Event::DeviceStopped, 10);
    assert_eq!(worker.state().status(), PlaybackStatus::Stopped);
}

#[test]
fn seek_while_playing_goes_on_playing_from_the_new_position() {
    let mut worker = playing();
    ok(&mut worker, Event::Gap, 7);
    ok(&mut worker, Event::Command(PlayerCommand::Seek(40_000)), 8);
    ok(&mut worker, Event::Seeked(39_990), 9);
    let state = worker.state();
    assert_eq!(state.status(), PlaybackStatus::Playing);
    assert_eq!(state.position(), (39_990, 9));
    assert_eq!(state.update_time(), 9);
    assert_eq!(state.effective_position(19), 40_000);
    assert_eq!(worker.next_action(), Action::PullPacket);
}

#[test]
fn stop_while_paused_reports_a_change_and_discards_the_session() {
    let mut worker = paused();
    let before = worker.state();
    ok(&mut worker, Event::Command(PlayerCommand::Stop), 8);
    let state = worker.state();
    assert_eq!(state.status(), PlaybackStatus::Paused);
    assert_eq!(state.position(), before.position());
    assert_eq!(state.update_time(), 8);
    assert!(state.is_newer_than(&before));
    assert_eq!(worker.next_action(), Action::DiscardDecoder);
    ok(&mut worker, Event::DecoderDiscarded, 9);
    assert!(!worker.has_session());
    assert_eq!(worker.state(), state);
}

#[test]
fn an_event_that_answers_nothing_is_refused() {
    let mut worker = Worker::new(0);
    let before = worker.state();
    for event in [
        Event::DeviceStarted,
        Event::DeviceStopped,
        Event::DeviceFault,
        Event::DecoderDiscarded,
        Event::TrackResolved(vec![FILE]),
        Event::TrackUnresolved,
        Event::KeyFetched(KEY),
        Event::KeyDenied,
        Event::DecoderOpened,
        Event::StreamUnavailable,
        Event::DecoderRejected,
        Event::Seeked(1),
        Event::Packet(1),
        Event::Gap,
        Event::EndOfStream,
        Event::DecoderFault,
        Event::Written,
        Event::Underflow,
    ] {
        assert_eq!(worker.handle(event, 50), Err(PlayerError::UnexpectedEvent));
        assert_eq!(worker.state(), before);
        assert_eq!(worker.next_action(), Action::WaitCommand);
    }
}

#[test]
fn a_command_is_refused_while_other_work_is_owed() {
    let mut worker = playing();
    let before = worker.state();
    assert_eq!(
        worker.handle(Event::Command(PlayerCommand::Pause), 50),
        Err(PlayerError::UnexpectedEvent)
    );
    assert_eq!(worker.handle(Event::NoCommand, 50), Err(PlayerError::UnexpectedEvent));
    assert_eq!(worker.handle(Event::Written, 50), Err(PlayerError::UnexpectedEvent));
    assert_eq!(worker.state(), before);
    assert_eq!(worker.next_action(), Action::PullPacket);
}
