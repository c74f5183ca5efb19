//! The playback stream engine: one stream of one track, from its
//! construction to its end.
//!
//! The engine holds what is decided about the stream. The audio sink is
//! driven from outside: each method answers with what the sink is to do.

pub mod audio_info;
pub mod stream;

use crate::command::{Command, Gain};
use crate::pw::audio_info::{AudioFormat, AudioInfo};
use crate::pw::stream::{
    copy_frames, declaration_for, frame_stride, frames_to_write, ChunkDeclaration, StreamMetadata,
};
use crate::song::{
    buffer_after, chunk_step, fits, ChunkStep, IoErrorKind, PacketOutcome, SeekMode, SeekRequest,
    SongReader, SongReaderError, SongView,
};
use crate::state::{PlayerState, RelayEvent};
use vstd::prelude::*;

verus! {

/// The states of a stream.
#[derive(Clone, Copy, Debug, PartialEq, Eq, Structural)]
pub enum Phase {
    /// The stream is made and not yet connected to the sink.
    Constructing,
    /// The stream is connected and its event loop does not run yet.
    Connected,
    /// The event loop runs and the sink asks for samples.
    Active,
    /// The event loop runs and the sink is held.
    Paused,
    /// The track ended or was skipped.
    Finished,
    /// A fatal error ended the stream.
    Aborted,
}

/// Where a stream stands between its construction and its end.
#[derive(Clone, Copy, Debug, PartialEq, Eq, Structural)]
pub enum Stage {
    Constructing,
    Connected,
    Running,
    Finished,
    Aborted,
}

/// What the sink is to do.
#[derive(Debug, PartialEq, Eq)]
pub enum SinkAction {
    Nothing,
    /// Hold the stream or let it go on.
    SetActive(bool),
    /// Set the one gain control, the same for both channels, to the cube of
    /// this gain.
    SetGain(Gain),
    /// Stop the event loop.
    Stop,
}

/// How a stream ended.
#[derive(Clone, Copy, Debug, PartialEq, Eq, Structural)]
pub enum TrackOutcome {
    /// The track was played to its end.
    Played,
    /// The track was skipped.
    Skipped,
    /// A fatal error ended the track.
    Failed,
}

/// What one buffer fill came to.
#[derive(Clone, Copy, Debug, PartialEq, Eq, Structural)]
pub struct Processed {
    /// What to declare back to the sink.
    pub declaration: ChunkDeclaration,
    /// Whether the event loop is to stop.
    pub stop: bool,
}

/// What a stream holds.
pub struct StreamView {
    pub song: SongView,
    pub stage: Stage,
    /// Whether the sink is to ask for samples.
    pub active: bool,
    /// The literal of the gain that was set last.
    pub gain: Option<Seq<char>>,
    /// Whether a skip ended the stream.
    pub skipped: bool,
}

impl StreamView {
    /// The state of the stream.
    pub open spec fn phase(self) -> Phase {
        match self.stage {
            Stage::Constructing => Phase::Constructing,
            Stage::Connected => Phase::Connected,
            Stage::Running => if self.active {
                Phase::Active
            } else {
                Phase::Paused
            },
            Stage::Finished => Phase::Finished,
            Stage::Aborted => Phase::Aborted,
        }
    }

    /// Whether the stream has ended.
    pub open spec fn ended(self) -> bool {
        self.stage is Finished || self.stage is Aborted
    }

    /// The stream after `command` came from its channel. Commands count
    /// while the event loop runs. A seek, `Done` and `Quit` are not for the
    /// stream.
    pub open spec fn after_command(self, command: Command) -> StreamView {
        if !(self.stage is Running) {
            self
        } else {
            match command {
                Command::Volume(gain) => StreamView { gain: Some(gain@), ..self },
                Command::Play => StreamView { active: true, ..self },
                Command::Pause => StreamView { active: false, ..self },
                Command::Toggle => StreamView { active: !self.active, ..self },
                Command::Skip => StreamView { stage: Stage::Finished, skipped: true, ..self },
                _ => self,
            }
        }
    }

    /// What the sink is to do when `command` came from the stream's channel.
    pub open spec fn action_for(self, command: Command) -> SinkAction {
        if !(self.stage is Running) {
            SinkAction::Nothing
        } else {
            match command {
                Command::Volume(gain) => SinkAction::SetGain(gain),
                Command::Play => SinkAction::SetActive(true),
                Command::Pause => SinkAction::SetActive(false),
                Command::Toggle => SinkAction::SetActive(!self.active),
                Command::Skip => SinkAction::Stop,
                _ => SinkAction::Nothing,
            }
        }
    }

    /// The stage after a callback got `error` in place of a chunk: a corrupt
    /// packet changes nothing, the end of the stream finishes the track, and
    /// any other error aborts it. Only a stream whose event loop runs ends:
    /// one that has ended stays as it ended.
    pub open spec fn stage_after_error(self, error: SongReaderError) -> Stage {
        if !(self.stage is Running) {
            self.stage
        } else {
            match error {
                SongReaderError::DecodeError => self.stage,
                SongReaderError::IoError(IoErrorKind::UnexpectedEof) => Stage::Finished,
                _ => Stage::Aborted,
            }
        }
    }

    /// The stream after it was connected to the sink.
    pub open spec fn after_connect(self) -> StreamView {
        if self.stage is Constructing {
            StreamView { stage: Stage::Connected, ..self }
        } else {
            self
        }
    }

    /// The stream after its event loop was started.
    pub open spec fn after_start(self) -> StreamView {
        if self.stage is Connected {
            StreamView { stage: Stage::Running, ..self }
        } else {
            self
        }
    }

    /// How the stream ended, if it has.
    pub open spec fn outcome(self) -> Option<TrackOutcome> {
        match self.stage {
            Stage::Finished => Some(
                if self.skipped {
                    TrackOutcome::Skipped
                } else {
                    TrackOutcome::Played
                },
            ),
            Stage::Aborted => Some(TrackOutcome::Failed),
            _ => None,
        }
    }
}

/// Whether a stream in the state `from` can be in the state `to` one step
/// later: a stream is connected, then started, then goes back and forth
/// between active and paused until it finishes or is aborted.
pub open spec fn may_follow(from: Phase, to: Phase) -> bool {
    from == to || match from {
        Phase::Constructing => to is Connected,
        Phase::Connected => to is Active || to is Paused,
        Phase::Active => to is Paused || to is Finished || to is Aborted,
        Phase::Paused => to is Active || to is Finished || to is Aborted,
        Phase::Finished => false,
        Phase::Aborted => false,
    }
}

/// Every step of a stream keeps to the order of its states, and a stream
/// that has ended is changed by no command and no error.
pub proof fn lemma_states_keep_their_order(
    stream: StreamView,
    command: Command,
    error: SongReaderError,
)
    ensures
        may_follow(stream.phase(), stream.after_connect().phase()),
        may_follow(stream.phase(), stream.after_start().phase()),
        may_follow(stream.phase(), stream.after_command(command).phase()),
        may_follow(
            stream.phase(),
            (StreamView { stage: stream.stage_after_error(error), ..stream }).phase(),
        ),
        stream.ended() ==> stream.after_command(command) == stream,
        stream.ended() ==> stream.stage_after_error(error) == stream.stage,
        stream.ended() ==> stream.after_connect() == stream && stream.after_start() == stream,
{
}

/// Whether a callback that got `error` in place of a chunk stops the event
/// loop.
pub open spec fn stops_on(error: SongReaderError) -> bool {
    !(error is DecodeError)
}

/// The stream of one track.
#[derive(Debug)]
pub struct PlayerStream {
    song: SongReader,
    metadata: StreamMetadata,
    stage: Stage,
    active: bool,
    gain: Option<Gain>,
    skipped: bool,
}

impl View for PlayerStream {
    type V = StreamView;

    closed spec fn view(&self) -> StreamView {
        StreamView {
            song: self.song@,
            stage: self.stage,
            active: self.active,
            gain: match self.gain {
                Some(gain) => Some(gain@),
                None => None,
            },
            skipped: self.skipped,
        }
    }
}

impl PlayerStream {
    /// The stream plays a stereo track whose sample buffer is in order.
    pub closed spec fn wf(&self) -> bool {
        &&& self.song.wf()
        &&& self.song@.channels == 2
        &&& self.metadata == (StreamMetadata { rate: self.song@.rate, channels: 2 })
    }

    /// A stream for `song`, not yet connected, that is to play at once.
    pub fn new(song: SongReader) -> (stream: PlayerStream)
        requires
            song.wf(),
            song@.channels == 2,
        ensures
            stream.wf(),
            stream@ == (StreamView {
                song: song@,
                stage: Stage::Constructing,
                active: true,
                gain: None,
                skipped: false,
            }),
    {
        let metadata = StreamMetadata { rate: song.rate(), channels: song.channels() };
        PlayerStream {
            song,
            metadata,
            stage: Stage::Constructing,
            active: true,
            gain: None,
            skipped: false,
        }
    }

    /// Rate and channel count of the stream: those of its track.
    pub fn metadata(&self) -> (metadata: StreamMetadata)
        requires
            self.wf(),
        ensures
            metadata == (StreamMetadata { rate: self@.song.rate, channels: 2 }),
    {
        self.metadata
    }

    /// The format that the stream negotiates with the sink: 32-bit floats,
    /// stereo, at the rate of the track.
    pub fn audio_info(&self) -> (info: AudioInfo)
        requires
            self.wf(),
        ensures
            info == AudioInfo::new_spec(self@.song.rate),
    {
        AudioInfo::new(self.metadata.rate, self.metadata.channels, AudioFormat::F32LE)
    }

    /// The name that the stream goes by at the sink: the title of its track,
    /// or that of the player where the track has none.
    pub fn name(&self) -> (name: &str)
        ensures
            name@ == match self@.song.title {
                Some(title) => title,
                None => "pwplayer"@,
            },
    {
        match self.song.name() {
            Some(title) => title,
            None => "pwplayer",
        }
    }

    /// The state of the stream.
    pub fn phase(&self) -> (phase: Phase)
        ensures
            phase == self@.phase(),
    {
        match self.stage {
            Stage::Constructing => Phase::Constructing,
            Stage::Connected => Phase::Connected,
            Stage::Running => if self.active {
                Phase::Active
            } else {
                Phase::Paused
            },
            Stage::Finished => Phase::Finished,
            Stage::Aborted => Phase::Aborted,
        }
    }

    /// How the stream ended, if it has.
    pub fn outcome(&self) -> (outcome: Option<TrackOutcome>)
        ensures
            outcome == self@.outcome(),
    {
        match self.stage {
            Stage::Finished => Some(
                if self.skipped {
                    TrackOutcome::Skipped
                } else {
                    TrackOutcome::Played
                },
            ),
            Stage::Aborted => Some(TrackOutcome::Failed),
            _ => None,
        }
    }

    /// Notes that the stream is connected to the sink. Only a stream under
    /// construction connects.
    pub fn connected(&mut self) -> (moved: bool)
        ensures
            moved == (old(self)@.stage is Constructing),
            final(self)@ == old(self)@.after_connect(),
            final(self).wf() == old(self).wf(),
    {
        match self.stage {
            Stage::Constructing => {
                self.stage = Stage::Connected;
                true
            },
            _ => false,
        }
    }

    /// Notes that the event loop runs. Only a connected stream starts.
    pub fn started(&mut self) -> (moved: bool)
        ensures
            moved == (old(self)@.stage is Connected),
            final(self)@ == old(self)@.after_start(),
            final(self).wf() == old(self).wf(),
    {
        match self.stage {
            Stage::Connected => {
                self.stage = Stage::Running;
                true
            },
            _ => false,
        }
    }

    /// Sets the gain of the stream.
    pub fn set_volume(&mut self, volume: Gain) -> (action: SinkAction)
        ensures
            action == SinkAction::SetGain(volume),
            final(self)@ == (StreamView { gain: Some(volume@), ..old(self)@ }),
            final(self).wf() == old(self).wf(),
    {
        self.gain = Some(volume.clone());
        SinkAction::SetGain(volume)
    }

    /// Holds the stream or lets it go on.
    pub fn set_active(&mut self, state: bool) -> (action: SinkAction)
        ensures
            action == SinkAction::SetActive(state),
            final(self)@ == (StreamView { active: state, ..old(self)@ }),
            final(self).wf() == old(self).wf(),
    {
        self.active = state;
        SinkAction::SetActive(state)
    }

    /// Holds a stream that goes on, and lets one go on that is held.
    pub fn toggle_active(&mut self) -> (action: SinkAction)
        ensures
            action == SinkAction::SetActive(!old(self)@.active),
            final(self)@ == (StreamView { active: !old(self)@.active, ..old(self)@ }),
            final(self).wf() == old(self).wf(),
    {
        let state: bool = self.active;
        self.set_active(!state)
    }

    /// Applies a command that came from the stream's channel.
    pub fn handle_command(&mut self, command: Command) -> (action: SinkAction)
        ensures
            action == old(self)@.action_for(command),
            final(self)@ == old(self)@.after_command(command),
            final(self).wf() == old(self).wf(),
    {
        match self.stage {
            Stage::Running => {},
            _ => {
                return SinkAction::Nothing;
            },
        }
        match command {
            Command::Volume(gain) => self.set_volume(gain),
            Command::Play => self.set_active(true),
            Command::Pause => self.set_active(false),
            Command::Toggle => self.toggle_active(),
            Command::Skip => {
                self.stage = Stage::Finished;
                self.skipped = true;
                SinkAction::Stop
            },
            _ => SinkAction::Nothing,
        }
    }

    /// Takes the pending seek request, at the start of a callback, as the
    /// seek to hand to the demuxer.
    pub fn take_seek(&self, state: &mut PlayerState) -> (request: Option<SeekRequest>)
        ensures
            request == match old(state)@.pending_seek {
                Some(time) => Some(
                    SeekRequest {
                        mode: SeekMode::Coarse,
                        time,
                        track_id: Some(self@.song.track_id),
                    },
                ),
                None => None,
            },
            final(state)@ == old(state)@.step(RelayEvent::TakeSeek),
    {
        match state.get_seek() {
            Some(time) => Some(self.song.seek_time(time)),
            None => None,
        }
    }

    /// Whether `outcome` is one that `next_chunk` takes.
    pub open spec fn takes(&self, outcome: PacketOutcome) -> bool {
        outcome matches PacketOutcome::Decoded(decoded) ==> fits(self@.song.buffer, decoded)
    }

    /// Whether `outcome` is one that `next_chunk` takes.
    pub fn accepts(&self, outcome: &PacketOutcome) -> (ok: bool)
        ensures
            ok == self.takes(*outcome),
    {
        self.song.accepts(outcome)
    }

    /// Answers the outcome of reading and decoding one packet of the track.
    pub fn next_chunk(&mut self, outcome: PacketOutcome) -> (step: ChunkStep)
        requires
            old(self).wf(),
            old(self).takes(outcome),
        ensures
            final(self).wf(),
            step == chunk_step(old(self)@.song.buffer, outcome),
            final(self)@ == (StreamView {
                song: SongView {
                    buffer: match outcome {
                        PacketOutcome::Decoded(decoded) => Some(
                            buffer_after(old(self)@.song.buffer, decoded),
                        ),
                        _ => old(self)@.song.buffer,
                    },
                    ..old(self)@.song
                },
                ..old(self)@
            }),
    {
        self.song.next_chunk(outcome)
    }

    /// Fills one output buffer of the sink from the chunk that the pipeline
    /// gave, or deals with the error that it gave in its place.
    ///
    /// Of a chunk, as many whole frames are copied as the buffer takes and
    /// the chunk has; what lies behind them in the buffer is not touched,
    /// and the size declared is that of the frames copied. An error leaves
    /// the buffer as it is and declares no frame.
    pub fn on_process(&mut self, chunk: Result<&[u8], SongReaderError>, out: &mut [u8]) -> (done:
        Processed)
        requires
            old(self).wf(),
        ensures
            final(self).wf(),
            final(out)@.len() == old(out)@.len(),
            match chunk {
                Ok(bytes) => {
                    let frames = frames_to_write(
                        old(out)@.len() as int,
                        bytes@.len() as int,
                        frame_stride(2),
                    );
                    &&& final(self)@ == old(self)@
                    &&& !done.stop
                    &&& done.declaration == declaration_for(frame_stride(2), frames)
                    &&& 0 <= frames * frame_stride(2) <= old(out)@.len()
                    &&& frames * frame_stride(2) <= bytes@.len()
                    &&& final(out)@.subrange(0, frames * frame_stride(2)) == bytes@.subrange(
                        0,
                        frames * frame_stride(2),
                    )
                    &&& final(out)@.subrange(frames * frame_stride(2), old(out)@.len() as int)
                        == old(out)@.subrange(frames * frame_stride(2), old(out)@.len() as int)
                },
                Err(error) => {
                    &&& final(self)@ == (StreamView {
                        stage: old(self)@.stage_after_error(error),
                        ..old(self)@
                    })
                    &&& done.stop == stops_on(error)
                    &&& done.declaration == declaration_for(frame_stride(2), 0)
                    &&& final(out)@ == old(out)@
                },
            },
    {
        let stride: u64 = self.metadata.stride();
        match chunk {
            Ok(bytes) => {
                let frames: usize = copy_frames(out, bytes, stride);
                assert(stride * frames == frames * stride) by (nonlinear_arith);
                Processed {
                    declaration: ChunkDeclaration {
                        offset: 0,
                        stride,
                        size: stride * (frames as u64),
                    },
                    stop: false,
                }
            },
            Err(error) => {
                let running: bool = match self.stage {
                    Stage::Running => true,
                    _ => false,
                };
                let stop: bool = match error {
                    SongReaderError::DecodeError => false,
                    SongReaderError::IoError(IoErrorKind::UnexpectedEof) => {
                        if running {
                            self.stage = Stage::Finished;
                        }
                        true
                    },
                    _ => {
                        if running {
                            self.stage = Stage::Aborted;
                        }
                        true
                    },
                };
                Processed { declaration: ChunkDeclaration { offset: 0, stride, size: 0 }, stop }
            },
        }
    }
}

} // verus!
