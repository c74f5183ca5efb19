//! The decode pipeline of one track: what a probed file must offer, what
//! becomes of each packet, and the sample buffer that is sized once.
//!
//! The demuxer and the decoder are driven from outside. Each report of
//! theirs comes in as a plain value, and the pipeline answers with what to
//! do next.

use crate::command::Timestamp;
use vstd::prelude::*;

verus! {

/// The standard keys of a tag, as far as the pipeline tells them apart.
#[derive(Clone, Copy, Debug, PartialEq, Eq, Structural)]
pub enum TagKey {
    TrackTitle,
    Other,
}

/// One tag of a file's metadata.
#[derive(Debug, PartialEq, Eq)]
pub struct Tag {
    pub std_key: Option<TagKey>,
    pub value: String,
}

/// The default track of a file, as its container describes it.
#[derive(Clone, Copy, Debug, PartialEq, Eq, Structural)]
pub struct Track {
    pub id: u32,
    /// Whether a decoder for the track's codec could be made.
    pub has_decoder: bool,
    /// The number of channels, if the container says it.
    pub channels: Option<u32>,
    /// The sample rate, if the container says it.
    pub sample_rate: Option<u32>,
}

/// What probing a file found.
#[derive(Debug, PartialEq, Eq)]
pub struct Probed {
    /// The tags of the current metadata revision; empty without one.
    pub tags: Vec<Tag>,
    /// The default track, if the file has any track.
    pub track: Option<Track>,
}

/// What opening and probing a file came to.
#[derive(Debug, PartialEq, Eq)]
pub enum Opened {
    /// The file could not be opened.
    Unreadable,
    /// No known format was found in it.
    Unrecognized,
    /// A format was found.
    Probed(Probed),
}

/// Why a file gives no track to play.
#[derive(Clone, Copy, Debug, PartialEq, Eq, Structural)]
pub enum LoadError {
    Unreadable,
    Unrecognized,
    NoTracks,
    NoDecoder,
    NoChannelData,
    NoSampleRate,
}

/// The kinds of error that the demuxer and the decoder report.
#[derive(Clone, Copy, Debug, PartialEq, Eq, Structural)]
pub enum ErrorKind {
    /// An I/O error; `unexpected_eof` tells the end of the stream from the rest.
    Io { unexpected_eof: bool },
    /// The packet is corrupt.
    Decode,
    Seek,
    Unsupported,
    Limit,
    /// The stream is discontinuous here: the decoder must be reset.
    ResetRequired,
}

/// The kind of an I/O error.
#[derive(Clone, Copy, Debug, PartialEq, Eq, Structural)]
pub enum IoErrorKind {
    UnexpectedEof,
    Other,
}

/// Why no chunk came.
#[derive(Clone, Copy, Debug, PartialEq, Eq, Structural)]
pub enum SongReaderError {
    /// A corrupt packet: skip it and ask again.
    DecodeError,
    /// An I/O error. `UnexpectedEof` is the end of the track.
    IoError(IoErrorKind),
    /// Any other error of the demuxer or the decoder.
    Other(ErrorKind),
}

/// A decoded packet, by its measures.
#[derive(Clone, Copy, Debug, PartialEq, Eq, Structural)]
pub struct Decoded {
    /// Frames that the decoder's buffer can hold.
    pub capacity: u64,
    /// Frames that this packet decoded to.
    pub frames: u64,
    /// Channels of each frame.
    pub channels: u32,
}

/// What reading and decoding the next packet came to.
#[derive(Clone, Copy, Debug, PartialEq, Eq, Structural)]
pub enum PacketOutcome {
    /// The demuxer gave no packet.
    ReadFailed(ErrorKind),
    /// The decoder failed on the packet.
    DecodeFailed(ErrorKind),
    /// The packet was decoded.
    Decoded(Decoded),
}

/// A chunk to copy out of the decoder, interleaved, into the sample buffer.
#[derive(Clone, Copy, Debug, PartialEq, Eq, Structural)]
pub struct Chunk {
    /// The size in samples of the buffer to make first, when there is none yet.
    pub allocate: Option<u64>,
    /// Samples of the chunk.
    pub samples: u64,
}

/// The answer of the pipeline to a packet outcome.
#[derive(Clone, Copy, Debug, PartialEq, Eq, Structural)]
pub enum ChunkStep {
    /// Reset the decoder and read the next packet.
    Retry,
    /// A chunk is there.
    Chunk(Chunk),
    /// No chunk.
    Failed(SongReaderError),
}

/// How a seek looks for its target.
#[derive(Clone, Copy, Debug, PartialEq, Eq, Structural)]
pub enum SeekMode {
    /// To the nearest point at or before the target that can be reached.
    Coarse,
    Accurate,
}

/// A seek to hand to the demuxer.
#[derive(Clone, Copy, Debug, PartialEq, Eq, Structural)]
pub struct SeekRequest {
    pub mode: SeekMode,
    pub time: Timestamp,
    pub track_id: Option<u32>,
}

/// The sample buffer of a track: its size is set once.
#[derive(Clone, Copy, Debug, PartialEq, Eq, Structural)]
pub struct SampleBuffer {
    /// Samples that the buffer can hold.
    pub capacity: u64,
    /// Samples of the chunk that it holds.
    pub written: u64,
}

/// The title among `tags[..n]`: the value of the last tag keyed as one.
pub open spec fn title_in(tags: Seq<Tag>, n: int) -> Option<Seq<char>>
    decreases n,
{
    if n <= 0 || n > tags.len() {
        None
    } else if tags[n - 1].std_key == Some(TagKey::TrackTitle) {
        Some(tags[n - 1].value@)
    } else {
        title_in(tags, n - 1)
    }
}

/// The title that `tags` give.
pub open spec fn title_of(tags: Seq<Tag>) -> Option<Seq<char>> {
    title_in(tags, tags.len() as int)
}

/// The error of a file that gives no track to play, if it gives none. The
/// checks are made in this order.
pub open spec fn load_error(opened: Opened) -> Option<LoadError> {
    match opened {
        Opened::Unreadable => Some(LoadError::Unreadable),
        Opened::Unrecognized => Some(LoadError::Unrecognized),
        Opened::Probed(probed) => match probed.track {
            None => Some(LoadError::NoTracks),
            Some(track) => if !track.has_decoder {
                Some(LoadError::NoDecoder)
            } else if track.channels is None {
                Some(LoadError::NoChannelData)
            } else if track.sample_rate is None {
                Some(LoadError::NoSampleRate)
            } else {
                None
            },
        },
    }
}

/// The error that a caller of the pipeline sees for an error of the
/// demuxer or the decoder.
pub open spec fn reader_error(kind: ErrorKind) -> SongReaderError {
    match kind {
        ErrorKind::Decode => SongReaderError::DecodeError,
        ErrorKind::Io { unexpected_eof } => SongReaderError::IoError(
            if unexpected_eof {
                IoErrorKind::UnexpectedEof
            } else {
                IoErrorKind::Other
            },
        ),
        other => SongReaderError::Other(other),
    }
}

/// Whether a buffer of `capacity` samples can be made on this machine.
pub open spec fn can_allocate(capacity: int) -> bool {
    capacity <= usize::MAX / 4
}

/// Whether `decoded` fits the buffer `buffer`, or the one made for it. A
/// buffer is made for frames of one channel at least.
pub open spec fn fits(buffer: Option<SampleBuffer>, decoded: Decoded) -> bool {
    match buffer {
        Some(b) => decoded.frames * decoded.channels <= b.capacity,
        None => {
            &&& decoded.channels > 0
            &&& can_allocate(decoded.capacity * decoded.channels)
            &&& decoded.frames <= decoded.capacity
        },
    }
}

/// The buffer after `decoded` was copied into it.
pub open spec fn buffer_after(buffer: Option<SampleBuffer>, decoded: Decoded) -> SampleBuffer {
    SampleBuffer {
        capacity: match buffer {
            Some(b) => b.capacity,
            None => (decoded.capacity * decoded.channels) as u64,
        },
        written: (decoded.frames * decoded.channels) as u64,
    }
}

/// The answer to `outcome` of a pipeline whose buffer is `buffer`.
pub open spec fn chunk_step(buffer: Option<SampleBuffer>, outcome: PacketOutcome) -> ChunkStep {
    match outcome {
        PacketOutcome::ReadFailed(ErrorKind::ResetRequired) => ChunkStep::Retry,
        PacketOutcome::ReadFailed(kind) => ChunkStep::Failed(reader_error(kind)),
        PacketOutcome::DecodeFailed(kind) => ChunkStep::Failed(reader_error(kind)),
        PacketOutcome::Decoded(decoded) => ChunkStep::Chunk(
            Chunk {
                allocate: match buffer {
                    Some(_) => None,
                    None => Some((decoded.capacity * decoded.channels) as u64),
                },
                samples: (decoded.frames * decoded.channels) as u64,
            },
        ),
    }
}

/// What a caller gets who follows the pipeline's answers through
/// `outcomes`, one packet after the other: the first answer that is no
/// retry, or nothing where every outcome asks for one.
pub open spec fn settle(buffer: Option<SampleBuffer>, outcomes: Seq<PacketOutcome>) -> Option<
    ChunkStep,
>
    decreases outcomes.len(),
{
    if outcomes.len() == 0 {
        None
    } else if chunk_step(buffer, outcomes[0]) is Retry {
        settle(buffer, outcomes.drop_first())
    } else {
        Some(chunk_step(buffer, outcomes[0]))
    }
}

/// `n` reads in a row that each ask for a reset.
pub open spec fn resets(n: nat) -> Seq<PacketOutcome> {
    Seq::new(n, |i: int| PacketOutcome::ReadFailed(ErrorKind::ResetRequired))
}

/// Resets are invisible: however many reads in a row ask for one, the
/// caller gets what the packets behind them give.
pub proof fn lemma_resets_are_transparent(
    buffer: Option<SampleBuffer>,
    n: nat,
    later: Seq<PacketOutcome>,
)
    ensures
        settle(buffer, resets(n) + later) == settle(buffer, later),
    decreases n,
{
    if n > 0 {
        let all = resets(n) + later;
        assert(all.drop_first() =~= resets((n - 1) as nat) + later);
        lemma_resets_are_transparent(buffer, (n - 1) as nat, later);
    } else {
        assert(resets(0) + later =~= later);
    }
}

/// A caller never gets a retry to deal with, and gets a chunk or an error as
/// soon as one read asks for no reset.
pub proof fn lemma_settle_gives_no_retry(buffer: Option<SampleBuffer>, outcomes: Seq<PacketOutcome>)
    ensures
        settle(buffer, outcomes) != Some(ChunkStep::Retry),
        settle(buffer, outcomes) is None <==> forall|i: int|
            0 <= i < outcomes.len() ==> #[trigger] outcomes[i] == PacketOutcome::ReadFailed(
                ErrorKind::ResetRequired,
            ),
    decreases outcomes.len(),
{
    if outcomes.len() > 0 {
        let rest = outcomes.drop_first();
        lemma_settle_gives_no_retry(buffer, rest);
        if chunk_step(buffer, outcomes[0]) is Retry {
            assert(outcomes[0] == PacketOutcome::ReadFailed(ErrorKind::ResetRequired));
            if settle(buffer, rest) is None {
                assert forall|i: int| 0 <= i < outcomes.len() implies #[trigger] outcomes[i]
                    == PacketOutcome::ReadFailed(ErrorKind::ResetRequired) by {
                    if i > 0 {
                        assert(outcomes[i] == rest[i - 1]);
                    }
                }
            } else {
                let i = choose|i: int|
                    0 <= i < rest.len() && rest[i] != PacketOutcome::ReadFailed(
                        ErrorKind::ResetRequired,
                    );
                assert(outcomes[i + 1] == rest[i]);
            }
        }
    }
}

/// What a pipeline holds.
pub struct SongView {
    /// The sample buffer, once it is made.
    pub buffer: Option<SampleBuffer>,
    pub channels: u32,
    pub rate: u32,
    /// The track that seeks are scoped to.
    pub track_id: u32,
    /// The title of the track, if its tags give one.
    pub title: Option<Seq<char>>,
}

/// The decode pipeline of one track.
#[derive(Debug)]
pub struct SongReader {
    buffer: Option<SampleBuffer>,
    channels: u32,
    rate: u32,
    track_id: u32,
    name: Option<String>,
}

impl View for SongReader {
    type V = SongView;

    closed spec fn view(&self) -> SongView {
        SongView {
            buffer: self.buffer,
            channels: self.channels,
            rate: self.rate,
            track_id: self.track_id,
            title: match self.name {
                Some(name) => Some(name@),
                None => None,
            },
        }
    }
}

impl SongReader {
    /// The buffer holds no more than it can.
    pub open spec fn wf(&self) -> bool {
        match self@.buffer {
            Some(b) => b.written <= b.capacity,
            None => true,
        }
    }

    /// The pipeline for a file that was opened and probed: its default track
    /// with the title from its tags. A file without a track, a decoder, a
    /// channel count or a sample rate gives none.
    pub fn from_file(opened: Opened) -> (song: Result<SongReader, LoadError>)
        ensures
            match song {
                Ok(reader) => {
                    &&& load_error(opened) is None
                    &&& opened matches Opened::Probed(probed)
                    &&& probed.track matches Some(track)
                    &&& reader@ == (SongView {
                        buffer: None,
                        channels: track.channels->0,
                        rate: track.sample_rate->0,
                        track_id: track.id,
                        title: title_of(probed.tags@),
                    })
                    &&& reader.wf()
                },
                Err(e) => load_error(opened) == Some(e),
            },
    {
        let probed: Probed = match opened {
            Opened::Unreadable => {
                return Err(LoadError::Unreadable);
            },
            Opened::Unrecognized => {
                return Err(LoadError::Unrecognized);
            },
            Opened::Probed(probed) => probed,
        };
        let name: Option<String> = track_title(&probed.tags);
        let track: Track = match probed.track {
            Some(track) => track,
            None => {
                return Err(LoadError::NoTracks);
            },
        };
        if !track.has_decoder {
            return Err(LoadError::NoDecoder);
        }
        let channels: u32 = match track.channels {
            Some(channels) => channels,
            None => {
                return Err(LoadError::NoChannelData);
            },
        };
        let rate: u32 = match track.sample_rate {
            Some(rate) => rate,
            None => {
                return Err(LoadError::NoSampleRate);
            },
        };
        Ok(SongReader { buffer: None, channels, rate, track_id: track.id, name })
    }

    /// The number of channels of the track.
    pub fn channels(&self) -> (channels: u32)
        ensures
            channels == self@.channels,
    {
        self.channels
    }

    /// The sample rate of the track.
    pub fn rate(&self) -> (rate: u32)
        ensures
            rate == self@.rate,
    {
        self.rate
    }

    /// The title of the track, if its tags give one.
    pub fn name(&self) -> (name: Option<&str>)
        ensures
            match name {
                Some(title) => self@.title == Some(title@),
                None => self@.title is None,
            },
    {
        match &self.name {
            Some(name) => Some(name.as_str()),
            None => None,
        }
    }

    /// Samples of the chunk that the buffer holds.
    pub fn chunk_len(&self) -> (samples: u64)
        ensures
            samples == match self@.buffer {
                Some(b) => b.written,
                None => 0,
            },
    {
        match self.buffer {
            Some(b) => b.written,
            None => 0,
        }
    }

    /// Whether `outcome` is one that `next_chunk` takes: a decoded packet
    /// must fit the sample buffer, whose size the first packet sets.
    pub open spec fn takes(&self, outcome: PacketOutcome) -> bool {
        outcome matches PacketOutcome::Decoded(decoded) ==> fits(self@.buffer, decoded)
    }

    /// Whether `outcome` is one that `next_chunk` takes.
    pub fn accepts(&self, outcome: &PacketOutcome) -> (ok: bool)
        ensures
            ok == self.takes(*outcome),
    {
        match outcome {
            PacketOutcome::Decoded(decoded) => {
                proof {
                    lemma_sizes_are_bounded(decoded.frames, decoded.channels);
                    lemma_sizes_are_bounded(decoded.capacity, decoded.channels);
                }
                let samples: u128 = decoded.frames as u128 * decoded.channels as u128;
                match self.buffer {
                    Some(b) => samples <= b.capacity as u128,
                    None => {
                        let capacity: u128 = decoded.capacity as u128 * decoded.channels as u128;
                        decoded.channels > 0 && capacity <= (usize::MAX / 4) as u128
                            && decoded.frames <= decoded.capacity
                    },
                }
            },
            _ => true,
        }
    }

    /// Answers the outcome of reading and decoding one packet. A reset that
    /// the demuxer asks for is answered with a retry and never with an
    /// error. The first decoded packet sets the size of the sample buffer,
    /// and no later one changes it.
    pub fn next_chunk(&mut self, outcome: PacketOutcome) -> (step: ChunkStep)
        requires
            old(self).wf(),
            old(self).takes(outcome),
        ensures
            step == chunk_step(old(self)@.buffer, outcome),
            final(self).wf(),
            final(self)@ == (SongView {
                buffer: match outcome {
                    PacketOutcome::Decoded(decoded) => Some(
                        buffer_after(old(self)@.buffer, decoded),
                    ),
                    _ => old(self)@.buffer,
                },
                ..old(self)@
            }),
    {
        match outcome {
            PacketOutcome::ReadFailed(ErrorKind::ResetRequired) => ChunkStep::Retry,
            PacketOutcome::ReadFailed(kind) => ChunkStep::Failed(classify(kind)),
            PacketOutcome::DecodeFailed(kind) => ChunkStep::Failed(classify(kind)),
            PacketOutcome::Decoded(decoded) => {
                proof {
                    lemma_fitting_sizes(self@.buffer, decoded);
                }
                let samples: u64 = decoded.frames * (decoded.channels as u64);
                let (capacity, allocate) = match self.buffer {
                    Some(b) => (b.capacity, None),
                    None => {
                        let capacity: u64 = decoded.capacity * (decoded.channels as u64);
                        (capacity, Some(capacity))
                    },
                };
                self.buffer = Some(SampleBuffer { capacity, written: samples });
                ChunkStep::Chunk(Chunk { allocate, samples })
            },
        }
    }

    /// The seek to `time`, scoped to this track, that lands at or before it.
    pub fn seek_time(&self, time: Timestamp) -> (request: SeekRequest)
        ensures
            request == (SeekRequest {
                mode: SeekMode::Coarse,
                time,
                track_id: Some(self@.track_id),
            }),
    {
        SeekRequest { mode: SeekMode::Coarse, time, track_id: Some(self.track_id) }
    }
}

/// A count of frames times a count of channels fits in 128 bits.
proof fn lemma_sizes_are_bounded(frames: u64, channels: u32)
    ensures
        frames * channels <= u128::MAX,
{
    assert(frames * channels <= 0xffff_ffff_ffff_ffff * 0xffff_ffff) by (nonlinear_arith)
        requires
            0 <= frames <= 0xffff_ffff_ffff_ffff,
            0 <= channels <= 0xffff_ffff,
    ;
}

/// A packet that fits gives sizes that fit in 64 bits, and a chunk that the
/// buffer holds.
proof fn lemma_fitting_sizes(buffer: Option<SampleBuffer>, decoded: Decoded)
    requires
        fits(buffer, decoded),
    ensures
        decoded.frames * decoded.channels <= u64::MAX,
        buffer is None ==> decoded.capacity * decoded.channels <= u64::MAX,
        decoded.frames * decoded.channels <= buffer_after(buffer, decoded).capacity,
{
    if buffer is None {
        assert(decoded.frames * decoded.channels <= decoded.capacity * decoded.channels)
            by (nonlinear_arith)
            requires
                decoded.frames <= decoded.capacity,
                0 <= decoded.channels,
        ;
    }
}

/// The error that a caller of the pipeline sees for `kind`.
pub fn classify(kind: ErrorKind) -> (error: SongReaderError)
    ensures
        error == reader_error(kind),
{
    match kind {
        ErrorKind::Decode => SongReaderError::DecodeError,
        ErrorKind::Io { unexpected_eof } => SongReaderError::IoError(
            if unexpected_eof {
                IoErrorKind::UnexpectedEof
            } else {
                IoErrorKind::Other
            },
        ),
        other => SongReaderError::Other(other),
    }
}

/// The title that `tags` give: the value of the last tag keyed as one.
pub fn track_title(tags: &Vec<Tag>) -> (title: Option<String>)
    ensures
        match title {
            Some(name) => title_of(tags@) == Some(name@),
            None => title_of(tags@) is None,
        },
{
    let mut i: usize = tags.len();
    while i > 0
        invariant
            i <= tags@.len(),
            title_of(tags@) == title_in(tags@, i as int),
        decreases i,
    {
        i -= 1;
        match tags[i].std_key {
            Some(TagKey::TrackTitle) => {
                return Some(tags[i].value.clone());
            },
            _ => {},
        }
    }
    None
}

} // verus!
