use pwplayer::command::{Command, Timestamp};
use pwplayer::pw::audio_info::{AudioFormat, AudioInfo, ChannelPosition};
use pwplayer::pw::stream::{copy_frames, ChunkDeclaration, StreamMetadata, SAMPLE_SIZE};
use pwplayer::pw::{Phase, PlayerStream, Processed, SinkAction, TrackOutcome};
use pwplayer::song::{
    Chunk, ChunkStep, Decoded, ErrorKind, IoErrorKind, Opened, PacketOutcome, Probed, SeekMode,
    SeekRequest, SongReader, SongReaderError, Track,
};
use pwplayer::state::PlayerState;

fn stream_at(rate: u32) -> PlayerStream {
    let track = Track { id: 1, has_decoder: true, channels: Some(2), sample_rate: Some(rate) };
    let song = SongReader::from_file(Opened::Probed(Probed { tags: vec![], track: Some(track) }))
        .unwrap();
    PlayerStream::new(song)
}

fn running_stream() -> PlayerStream {
    let mut stream = stream_at(48000);
    assert!(stream.connected());
    assert!(stream.started());
    stream
}

fn bytes(n: usize) -> Vec<u8> {
    (0..n).map(|i| (i % 251) as u8 + 1).collect()
}

fn gain_cubed(action: &SinkAction) -> f32 {
    match action {
        SinkAction::SetGain(gain) => {
            let v = gain.percent().parse::<f32>().unwrap() / 100f32;
            v * v * v
        },
        other => panic!("no gain: {:?}", other),
    }
}

#[test]
fn a_frame_of_two_channels_has_eight_bytes() {
    assert_eq!(SAMPLE_SIZE, 4);
    assert_eq!(StreamMetadata { rate: 44100, channels: 2 }.stride(), 8);
    assert_eq!(StreamMetadata { rate: 44100, channels: 6 }.stride(), 24);
    assert_eq!(StreamMetadata { rate: 1, channels: u32::MAX }.stride(), 17179869180);
    assert!(StreamMetadata { rate: 44100, channels: 2 }.supported());
    assert!(!StreamMetadata { rate: 44100, channels: 1 }.supported());
}

#[test]
fn a_chunk_shorter_than_the_buffer_fills_its_start() {
    let chunk = bytes(3 * 8);
    let mut out = vec![0u8; 5 * 8];
    assert_eq!(copy_frames(&mut out, &chunk, 8), 3);
    assert_eq!(out[..24], chunk[..]);
    assert_eq!(out[24..], [0u8; 16]);
}

#[test]
fn a_chunk_longer_than_the_buffer_fills_it() {
    let chunk = bytes(7 * 8);
    let mut out = vec![0u8; 4 * 8];
    assert_eq!(copy_frames(&mut out, &chunk, 8), 4);
    assert_eq!(out[..], chunk[..32]);
}

#[test]
fn only_whole_frames_are_copied() {
    let chunk = bytes(3 * 8 + 5);
    let mut out = vec![0xeeu8; 2 * 8 + 7];
    assert_eq!(copy_frames(&mut out, &chunk, 8), 2);
    assert_eq!(out[..16], chunk[..16]);
    assert_eq!(out[16..], [0xeeu8; 7]);
    let mut small = vec![0xeeu8; 7];
    assert_eq!(copy_frames(&mut small, &chunk, 8), 0);
    assert_eq!(small, vec![0xeeu8; 7]);
    let mut empty: Vec<u8> = vec![];
    assert_eq!(copy_frames(&mut empty, &chunk, 8), 0);
    let mut out = vec![0xeeu8; 16];
    assert_eq!(copy_frames(&mut out, &[], 8), 0);
    assert_eq!(out, vec![0xeeu8; 16]);
}

#[test]
fn frames_are_counted_by_the_stride() {
    let chunk = bytes(48);
    let mut out = vec![0u8; 48];
    assert_eq!(copy_frames(&mut out, &chunk, 24), 2);
    assert_eq!(out, chunk);
    let mut out = vec![0u8; 48];
    assert_eq!(copy_frames(&mut out, &chunk, 1), 48);
    let mut out = vec![0u8; 48];
    assert_eq!(copy_frames(&mut out, &chunk, 49), 0);
    assert_eq!(out, vec![0u8; 48]);
    let mut out = vec![0u8; 48];
    assert_eq!(copy_frames(&mut out, &chunk, u64::MAX), 0);
}

#[test]
fn a_fill_declares_what_it_wrote() {
    let mut stream = running_stream();
    let chunk = bytes(1000 * 8);
    let mut out = vec![0u8; 1024 * 8];
    let done = stream.on_process(Ok(&chunk), &mut out);
    assert_eq!(
        done,
        Processed {
            declaration: ChunkDeclaration { offset: 0, stride: 8, size: 8000 },
            stop: false
        }
    );
    assert_eq!(out[..8000], chunk[..]);
    assert_eq!(out[8000..], [0u8; 192]);
    assert_eq!(stream.phase(), Phase::Active);
}

#[test]
fn a_fill_never_declares_more_than_the_buffer() {
    let mut stream = running_stream();
    let chunk = bytes(4096 * 8);
    let mut out = vec![0u8; 512 * 8 + 3];
    let done = stream.on_process(Ok(&chunk), &mut out);
    assert_eq!(done.declaration, ChunkDeclaration { offset: 0, stride: 8, size: 4096 });
    assert!(!done.stop);
    assert_eq!(out[..4096], chunk[..4096]);
    assert_eq!(out[4096..], [0u8; 3]);
}

#[test]
fn a_corrupt_packet_writes_nothing_and_goes_on() {
    let mut stream = running_stream();
    let mut out = vec![0x55u8; 64];
    let done = stream.on_process(Err(SongReaderError::DecodeError), &mut out);
    assert_eq!(
        done,
        Processed { declaration: ChunkDeclaration { offset: 0, stride: 8, size: 0 }, stop: false }
    );
    assert_eq!(out, vec![0x55u8; 64]);
    assert_eq!(stream.phase(), Phase::Active);
    assert_eq!(stream.outcome(), None);
}

#[test]
fn the_end_of_the_stream_finishes_the_track() {
    let mut stream = running_stream();
    let mut out = vec![0u8; 64];
    let done =
        stream.on_process(Err(SongReaderError::IoError(IoErrorKind::UnexpectedEof)), &mut out);
    assert!(done.stop);
    assert_eq!(done.declaration.size, 0);
    assert_eq!(stream.phase(), Phase::Finished);
    assert_eq!(stream.outcome(), Some(TrackOutcome::Played));
}

#[test]
fn any_other_error_aborts_the_track() {
    for error in [
        SongReaderError::IoError(IoErrorKind::Other),
        SongReaderError::Other(ErrorKind::Unsupported),
        SongReaderError::Other(ErrorKind::Limit),
        SongReaderError::Other(ErrorKind::Seek),
        SongReaderError::Other(ErrorKind::ResetRequired),
    ] {
        let mut stream = running_stream();
        let mut out = vec![0u8; 64];
        let done = stream.on_process(Err(error), &mut out);
        assert!(done.stop);
        assert_eq!(done.declaration, ChunkDeclaration { offset: 0, stride: 8, size: 0 });
        assert_eq!(stream.phase(), Phase::Aborted);
        assert_eq!(stream.outcome(), Some(TrackOutcome::Failed));
    }
}

#[test]
fn a_stream_that_has_ended_stays_as_it_ended() {
    let mut stream = running_stream();
    let mut out = vec![0u8; 8];
    stream.on_process(Err(SongReaderError::IoError(IoErrorKind::UnexpectedEof)), &mut out);
    let done = stream.on_process(Err(SongReaderError::IoError(IoErrorKind::Other)), &mut out);
    assert!(done.stop);
    assert_eq!(stream.phase(), Phase::Finished);
    assert_eq!(stream.handle_command(Command::Pause), SinkAction::Nothing);
    assert_eq!(stream.phase(), Phase::Finished);
}

#[test]
fn a_stream_goes_from_construction_to_active() {
    let mut stream = stream_at(44100);
    assert_eq!(stream.phase(), Phase::Constructing);
    assert!(!stream.started());
    assert_eq!(stream.phase(), Phase::Constructing);
    assert!(stream.connected());
    assert_eq!(stream.phase(), Phase::Connected);
    assert!(!stream.connected());
    assert!(stream.started());
    assert_eq!(stream.phase(), Phase::Active);
    assert!(!stream.started());
    assert!(!stream.connected());
    assert_eq!(stream.phase(), Phase::Active);
    assert_eq!(stream.outcome(), None);
}

#[test]
fn play_pause_and_toggle_move_between_active_and_paused() {
    let mut stream = running_stream();
    assert_eq!(stream.handle_command(Command::Pause), SinkAction::SetActive(false));
    assert_eq!(stream.phase(), Phase::Paused);
    assert_eq!(stream.handle_command(Command::Pause), SinkAction::SetActive(false));
    assert_eq!(stream.phase(), Phase::Paused);
    assert_eq!(stream.handle_command(Command::Play), SinkAction::SetActive(true));
    assert_eq!(stream.phase(), Phase::Active);
    assert_eq!(stream.handle_command(Command::Toggle), SinkAction::SetActive(false));
    assert_eq!(stream.phase(), Phase::Paused);
    assert_eq!(stream.handle_command(Command::Toggle), SinkAction::SetActive(true));
    assert_eq!(stream.phase(), Phase::Active);
}

#[test]
fn a_volume_command_sets_the_cube_of_the_gain() {
    let mut stream = running_stream();
    let action = stream.handle_command(Command::from_str("volume 50").unwrap());
    assert_eq!(gain_cubed(&action), 0.125f32);
    let action = stream.handle_command(Command::from_str("volume 200").unwrap());
    assert_eq!(gain_cubed(&action), 8.0f32);
    assert_eq!(stream.phase(), Phase::Active);
}

#[test]
fn a_skip_stops_the_stream_without_full_playback() {
    let mut stream = running_stream();
    assert_eq!(stream.handle_command(Command::Skip), SinkAction::Stop);
    assert_eq!(stream.phase(), Phase::Finished);
    assert_eq!(stream.outcome(), Some(TrackOutcome::Skipped));
}

#[test]
fn commands_that_are_not_for_the_stream_do_nothing() {
    let mut stream = running_stream();
    let seek = Command::Seek(Timestamp { seconds: 3, nanos: 0 });
    assert_eq!(stream.handle_command(seek), SinkAction::Nothing);
    assert_eq!(stream.handle_command(Command::Done), SinkAction::Nothing);
    assert_eq!(stream.handle_command(Command::Quit), SinkAction::Nothing);
    assert_eq!(stream.phase(), Phase::Active);
}

#[test]
fn commands_count_only_while_the_loop_runs() {
    let mut stream = stream_at(44100);
    assert_eq!(stream.handle_command(Command::Pause), SinkAction::Nothing);
    assert_eq!(stream.handle_command(Command::Skip), SinkAction::Nothing);
    assert_eq!(stream.phase(), Phase::Constructing);
    stream.connected();
    assert_eq!(stream.handle_command(Command::Skip), SinkAction::Nothing);
    stream.started();
    assert_eq!(stream.phase(), Phase::Active);
}

#[test]
fn the_setters_answer_with_the_action_for_the_sink() {
    let mut stream = stream_at(44100);
    assert_eq!(stream.set_active(false), SinkAction::SetActive(false));
    assert_eq!(stream.toggle_active(), SinkAction::SetActive(true));
    assert_eq!(stream.toggle_active(), SinkAction::SetActive(false));
    stream.connected();
    stream.started();
    assert_eq!(stream.phase(), Phase::Paused);
    let gain = match Command::from_str("vol 10").unwrap() {
        Command::Volume(gain) => gain,
        other => panic!("no volume: {:?}", other),
    };
    assert_eq!(stream.set_volume(gain.clone()), SinkAction::SetGain(gain));
}

#[test]
fn a_callback_takes_the_pending_seek_once() {
    let stream = running_stream();
    let mut state = PlayerState::new();
    assert_eq!(stream.take_seek(&mut state), None);
    state.seek_to(Timestamp { seconds: 10, nanos: 0 });
    state.seek_to(Timestamp { seconds: 20, nanos: 0 });
    assert_eq!(
        stream.take_seek(&mut state),
        Some(SeekRequest {
            mode: SeekMode::Coarse,
            time: Timestamp { seconds: 20, nanos: 0 },
            track_id: Some(1)
        })
    );
    assert_eq!(stream.take_seek(&mut state), None);
}

#[test]
fn the_stream_hands_packets_to_its_pipeline() {
    let mut stream = running_stream();
    let reset = PacketOutcome::ReadFailed(ErrorKind::ResetRequired);
    assert!(stream.accepts(&reset));
    assert_eq!(stream.next_chunk(reset), ChunkStep::Retry);
    let packet = PacketOutcome::Decoded(Decoded { capacity: 100, frames: 50, channels: 2 });
    assert!(stream.accepts(&packet));
    assert_eq!(
        stream.next_chunk(packet),
        ChunkStep::Chunk(Chunk { allocate: Some(200), samples: 100 })
    );
    let too_long = PacketOutcome::Decoded(Decoded { capacity: 100, frames: 101, channels: 2 });
    assert!(!stream.accepts(&too_long));
}

#[test]
fn the_stream_offers_floats_in_stereo_at_the_rate_of_the_track() {
    let stream = stream_at(96000);
    assert_eq!(stream.metadata(), StreamMetadata { rate: 96000, channels: 2 });
    assert_eq!(
        stream.audio_info(),
        AudioInfo {
            format: AudioFormat::F32LE,
            rate: 96000,
            channels: 2,
            position: (ChannelPosition::FrontLeft, ChannelPosition::FrontRight),
        }
    );
    assert_eq!(AudioInfo::new(8000, 2, AudioFormat::F32LE).rate, 8000);
}

#[test]
fn a_stream_goes_by_the_title_of_its_track() {
    let track = Track { id: 1, has_decoder: true, channels: Some(2), sample_rate: Some(44100) };
    let tags = vec![pwplayer::song::Tag {
        std_key: Some(pwplayer::song::TagKey::TrackTitle),
        value: "Blue in Green".to_string(),
    }];
    let song = SongReader::from_file(Opened::Probed(Probed { tags, track: Some(track) })).unwrap();
    assert_eq!(PlayerStream::new(song).name(), "Blue in Green");
    assert_eq!(stream_at(44100).name(), "pwplayer");
}

#[test]
fn only_a_running_stream_ends_on_an_error() {
    let mut stream = stream_at(44100);
    let mut out = vec![0u8; 16];
    let eof = SongReaderError::IoError(IoErrorKind::UnexpectedEof);
    assert!(stream.on_process(Err(eof), &mut out).stop);
    assert_eq!(stream.phase(), Phase::Constructing);
    stream.connected();
    assert!(stream.on_process(Err(SongReaderError::IoError(IoErrorKind::Other)), &mut out).stop);
    assert_eq!(stream.phase(), Phase::Connected);
    assert_eq!(stream.outcome(), None);
}
