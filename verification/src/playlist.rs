//! The playlist: the files under the path that was given, and the session
//! that plays them one after the other.

use crate::pw::{PlayerStream, TrackOutcome};
use crate::song::{load_error, title_of, LoadError, Opened, SongReader};
use crate::state::{PipewireLoopTx, PlayerState, RelayEvent};
use vstd::prelude::*;

verus! {

/// What was found at a path, `T` being the type of a path.
#[derive(Debug, PartialEq, Eq)]
pub enum Node<T> {
    /// A file.
    File(T),
    /// A directory that was read: its entries, in the order read.
    Dir(Vec<Node<T>>),
    /// A directory that could not be read.
    Unreadable,
    /// Neither a file nor a directory.
    Other,
}

/// Why a path gives no list of files.
#[derive(Clone, Copy, Debug, PartialEq, Eq, Structural)]
pub enum WalkError {
    /// The path, or a directory below it, could not be read as a directory.
    Unreadable,
}

/// The files at and below `node`, directories first to last and depth
/// first; nothing where a directory below could not be read.
pub open spec fn files_of<T>(node: Node<T>) -> Option<Seq<T>>
    decreases node, 1int,
{
    match node {
        Node::File(path) => Some(seq![path]),
        Node::Dir(entries) => files_in(entries@, entries@.len() as int),
        Node::Unreadable => None,
        Node::Other => Some(Seq::empty()),
    }
}

/// The files at and below the first `n` of `entries`.
pub open spec fn files_in<T>(entries: Seq<Node<T>>, n: int) -> Option<Seq<T>>
    decreases entries, 0int, n,
{
    if n <= 0 || n > entries.len() {
        Some(Seq::empty())
    } else {
        match (files_in(entries, n - 1), files_of(entries[n - 1])) {
            (Some(before), Some(here)) => Some(before + here),
            _ => None,
        }
    }
}

/// The files that a walk of the directory `dir` lists.
pub open spec fn walked<T>(dir: Node<T>) -> Result<Seq<T>, WalkError> {
    match dir {
        Node::Dir(entries) => match files_of(dir) {
            Some(files) => Ok(files),
            None => Err(WalkError::Unreadable),
        },
        _ => Err(WalkError::Unreadable),
    }
}

/// The files to play for the path that was given: the file itself, or the
/// files below the directory.
pub open spec fn input_files<T>(input: Node<T>) -> Result<Seq<T>, WalkError> {
    match input {
        Node::File(path) => Ok(seq![path]),
        _ => walked(input),
    }
}

/// Once a directory among the first entries could not be read, no longer
/// run of entries gives a list.
proof fn lemma_unreadable_stays<T>(entries: Seq<Node<T>>, k: int, n: int)
    requires
        0 <= k <= n <= entries.len(),
        files_in(entries, k) is None,
    ensures
        files_in(entries, n) is None,
    decreases n - k,
{
    if k < n {
        lemma_unreadable_stays(entries, k, n - 1);
    }
}

/// Appends the files at and below the entries of a directory to `data`.
pub fn walk_dir_recursive<T>(dir: Vec<Node<T>>, data: &mut Vec<T>) -> (done: Result<
    (),
    WalkError,
>)
    ensures
        match files_in(dir@, dir@.len() as int) {
            Some(files) => done is Ok && final(data)@ == old(data)@ + files,
            None => done is Err,
        },
    decreases dir@,
{
    let ghost start = data@;
    let ghost entries = dir@;
    assert(start + Seq::<T>::empty() =~= start);
    for entry in it: dir
        invariant
            it.seq() == entries,
            files_in(entries, it.index() as int) matches Some(files) && data@ == start + files,
        decreases entries.len() - it.index(),
    {
        let ghost i = it.index() as int;
        let ghost before = files_in(entries, i)->0;
        assert(entry == entries[i]);
        match entry {
            Node::File(path) => {
                data.push(path);
                assert(data@ =~= start + (before + seq![path]));
            },
            Node::Dir(below) => {
                let ghost held = data@;
                match walk_dir_recursive(below, data) {
                    Ok(()) => {
                        assert(data@ =~= start + (before + files_of(entry)->0));
                    },
                    Err(e) => {
                        proof {
                            lemma_unreadable_stays(entries, i + 1, entries.len() as int);
                        }
                        return Err(e);
                    },
                }
            },
            Node::Unreadable => {
                proof {
                    lemma_unreadable_stays(entries, i + 1, entries.len() as int);
                }
                return Err(WalkError::Unreadable);
            },
            Node::Other => {
                assert(data@ =~= start + (before + Seq::<T>::empty()));
            },
        }
    }
    Ok(())
}

/// Lists the files at and below the directory `dir`.
pub fn walk_dir<T>(dir: Node<T>) -> (files: Result<Vec<T>, WalkError>)
    ensures
        match files {
            Ok(list) => walked(dir) == Ok::<Seq<T>, WalkError>(list@),
            Err(e) => walked(dir) == Err::<Seq<T>, WalkError>(e),
        },
{
    match dir {
        Node::Dir(entries) => {
            let mut files: Vec<T> = Vec::new();
            match walk_dir_recursive(entries, &mut files) {
                Ok(()) => {
                    assert(files@ =~= files_of(dir)->0);
                    Ok(files)
                },
                Err(e) => Err(e),
            }
        },
        _ => Err(WalkError::Unreadable),
    }
}

/// Lists the files to play for the path that was given.
pub fn handle_input_path<T>(input: Node<T>) -> (files: Result<Vec<T>, WalkError>)
    ensures
        match files {
            Ok(list) => input_files(input) == Ok::<Seq<T>, WalkError>(list@),
            Err(e) => input_files(input) == Err::<Seq<T>, WalkError>(e),
        },
{
    match input {
        Node::File(path) => {
            let mut files: Vec<T> = Vec::new();
            files.push(path);
            assert(files@ =~= seq![path]);
            Ok(files)
        },
        other => walk_dir(other),
    }
}

/// Why a track is passed over.
#[derive(Clone, Copy, Debug, PartialEq, Eq, Structural)]
pub enum Skip {
    /// The file gives no track to play.
    Load(LoadError),
    /// The track has this many channels and not two.
    Channels(u32),
    /// The stream before it is not torn down yet.
    Busy,
    /// No stream number is left.
    Exhausted,
}

/// What a session holds.
pub struct SessionView<T> {
    /// The tracks, in the order in which they are played.
    pub tracks: Seq<T>,
    /// The number of tracks that were taken up.
    pub cursor: nat,
    /// The channel of the stream that is current.
    pub current: Option<PipewireLoopTx>,
    /// The number of streams that were begun.
    pub streams: nat,
}

impl<T> SessionView<T> {
    /// The tracks that are still to be taken up.
    pub open spec fn remaining(self) -> Seq<T> {
        self.tracks.subrange(self.cursor as int, self.tracks.len() as int)
    }

    /// Whether the playlist is through and no stream is left.
    pub open spec fn finished(self) -> bool {
        self.cursor == self.tracks.len() && self.current is None
    }
}

/// Why `opened` gives no stream in a session that holds `current` and has
/// begun `streams` streams, if it gives none.
pub open spec fn skip_reason(
    current: Option<PipewireLoopTx>,
    streams: nat,
    opened: Opened,
) -> Option<Skip> {
    if current is Some {
        Some(Skip::Busy)
    } else if streams >= u64::MAX {
        Some(Skip::Exhausted)
    } else if load_error(opened) is Some {
        Some(Skip::Load(load_error(opened)->0))
    } else if opened->Probed_0.track->0.channels->0 != 2 {
        Some(Skip::Channels(opened->Probed_0.track->0.channels->0))
    } else {
        None
    }
}

/// One run through a playlist.
#[derive(Debug)]
pub struct Session<T> {
    tracks: Vec<T>,
    cursor: usize,
    current: Option<PipewireLoopTx>,
    streams: u64,
}

impl<T> View for Session<T> {
    type V = SessionView<T>;

    closed spec fn view(&self) -> SessionView<T> {
        SessionView {
            tracks: self.tracks@,
            cursor: self.cursor as nat,
            current: self.current,
            streams: self.streams as nat,
        }
    }
}

/// `rand::seq::SliceRandom::shuffle` with the generator of `rand::thread_rng`:
/// it reorders the slice by swapping its items, so that the same items are
/// there afterwards, each as often as before. In which order they come
/// out is left open. The generator is seeded by the system when a thread
/// first asks for it, and gives up only where the system has no random
/// numbers to seed it with.
#[verifier::external_body]
fn shuffle_tracks<T>(tracks: &mut Vec<T>)
    ensures
        final(tracks)@.to_multiset() == old(tracks)@.to_multiset(),
        final(tracks)@.len() == old(tracks)@.len(),
{
    rand::seq::SliceRandom::shuffle(tracks.as_mut_slice(), &mut rand::thread_rng());
}

impl<T> Session<T> {
    /// The cursor is within the playlist, and the stream that is current was
    /// begun by this session.
    pub open spec fn wf(&self) -> bool {
        &&& self@.cursor <= self@.tracks.len()
        &&& self@.streams <= u64::MAX
        &&& self@.current matches Some(tx) ==> tx.stream < self@.streams
    }

    /// A session that plays `tracks` in their order.
    pub fn new(tracks: Vec<T>) -> (session: Session<T>)
        ensures
            session.wf(),
            session@ == (SessionView { tracks: tracks@, cursor: 0, current: None, streams: 0 }),
    {
        Session { tracks, cursor: 0, current: None, streams: 0 }
    }

    /// A session that plays `tracks` in an order drawn by chance: every
    /// track is in it as often as it was given.
    pub fn shuffled(tracks: Vec<T>) -> (session: Session<T>)
        ensures
            session.wf(),
            session@.tracks.to_multiset() == tracks@.to_multiset(),
            session@.tracks.len() == tracks@.len(),
            session@.cursor == 0,
            session@.current is None,
            session@.streams == 0,
    {
        let mut tracks = tracks;
        shuffle_tracks(&mut tracks);
        Session { tracks, cursor: 0, current: None, streams: 0 }
    }

    /// The number of tracks of the playlist.
    pub fn len(&self) -> (n: usize)
        ensures
            n == self@.tracks.len(),
    {
        self.tracks.len()
    }

    /// Whether the playlist is through and no stream is left.
    pub fn finished(&self) -> (done: bool)
        requires
            self.wf(),
        ensures
            done == self@.finished(),
    {
        self.cursor == self.tracks.len() && self.current.is_none()
    }

    /// Takes up the next track, if one is left.
    pub fn next_track(&mut self) -> (track: Option<&T>)
        requires
            old(self).wf(),
        ensures
            final(self).wf(),
            match track {
                Some(t) => {
                    &&& old(self)@.cursor < old(self)@.tracks.len()
                    &&& *t == old(self)@.tracks[old(self)@.cursor as int]
                    &&& final(self)@ == (SessionView {
                        cursor: old(self)@.cursor + 1,
                        ..old(self)@
                    })
                },
                None => old(self)@.cursor == old(self)@.tracks.len() && final(self)@ == old(
                    self,
                )@,
            },
    {
        if self.cursor < self.tracks.len() {
            let at: usize = self.cursor;
            self.cursor = at + 1;
            Some(&self.tracks[at])
        } else {
            None
        }
    }

    /// Begins the stream of the track that was taken up, from what opening
    /// and probing its file came to, and binds the relay to the new stream.
    ///
    /// A file that gives no track, and a track that is not in stereo, is
    /// passed over: then the session and the relay stay as they are.
    pub fn begin_stream(&mut self, state: &mut PlayerState, opened: Opened) -> (begun: Result<
        (PlayerStream, PipewireLoopTx),
        Skip,
    >)
        requires
            old(self).wf(),
        ensures
            final(self).wf(),
            match begun {
                Ok((stream, tx)) => {
                    &&& skip_reason(old(self)@.current, old(self)@.streams, opened) is None
                    &&& tx.stream == old(self)@.streams
                    &&& final(self)@ == (SessionView {
                        current: Some(tx),
                        streams: old(self)@.streams + 1,
                        ..old(self)@
                    })
                    &&& final(state)@ == old(state)@.step(RelayEvent::Rebind(tx))
                    &&& stream.wf()
                    &&& stream@.stage is Constructing
                    &&& stream@.active
                    &&& stream@.gain is None
                    &&& !stream@.skipped
                    &&& stream@.song.buffer is None
                    &&& stream@.song.channels == 2
                    &&& Some(stream@.song.rate) == opened->Probed_0.track->0.sample_rate
                    &&& stream@.song.track_id == opened->Probed_0.track->0.id
                    &&& stream@.song.title == title_of(opened->Probed_0.tags@)
                },
                Err(skip) => {
                    &&& skip_reason(old(self)@.current, old(self)@.streams, opened) == Some(skip)
                    &&& final(self)@ == old(self)@
                    &&& final(state)@ == old(state)@
                },
            },
    {
        if self.current.is_some() {
            return Err(Skip::Busy);
        }
        if self.streams == u64::MAX {
            return Err(Skip::Exhausted);
        }
        let song: SongReader = match SongReader::from_file(opened) {
            Ok(song) => song,
            Err(e) => {
                return Err(Skip::Load(e));
            },
        };
        let channels: u32 = song.channels();
        if channels != 2 {
            return Err(Skip::Channels(channels));
        }
        let stream: PlayerStream = PlayerStream::new(song);
        let tx = PipewireLoopTx { stream: self.streams };
        state.update_tx(tx);
        self.current = Some(tx);
        self.streams = self.streams + 1;
        Ok((stream, tx))
    }

    /// Tears the current stream down: the relay is unbound, so that what is
    /// handed in from now on reaches no stream until the next one is begun.
    /// Returns how the stream ended, if it had.
    pub fn end_stream(&mut self, state: &mut PlayerState, stream: PlayerStream) -> (outcome:
        Option<TrackOutcome>)
        requires
            old(self).wf(),
        ensures
            final(self).wf(),
            outcome == stream@.outcome(),
            final(self)@ == (SessionView { current: None, ..old(self)@ }),
            final(state)@ == old(state)@.step(RelayEvent::Release),
    {
        self.current = None;
        state.release_tx();
        stream.outcome()
    }
}

} // verus!
