use pwplayer::playlist::{handle_input_path, walk_dir, walk_dir_recursive, Node, Session, Skip, WalkError};
use pwplayer::pw::{Phase, TrackOutcome};
use pwplayer::song::{IoErrorKind, LoadError, Opened, Probed, SongReaderError, Track};
use pwplayer::state::{Delivery, PipewireLoopTx, PlayerState, Routed};
use pwplayer::command::Command;

fn file(name: &str) -> Node<String> {
    Node::File(name.to_string())
}

fn playable(channels: u32) -> Opened {
    let track =
        Track { id: 0, has_decoder: true, channels: Some(channels), sample_rate: Some(44100) };
    Opened::Probed(Probed { tags: vec![], track: Some(track) })
}

#[test]
fn a_walk_lists_files_depth_first_in_the_order_read() {
    let tree = Node::Dir(vec![
        file("b.flac"),
        Node::Dir(vec![file("sub/a.ogg"), Node::Dir(vec![file("sub/deep/x.wav")]), file("sub/z")]),
        Node::Other,
        Node::Dir(vec![]),
        file("a.mp3"),
    ]);
    assert_eq!(
        walk_dir(tree),
        Ok(vec![
            "b.flac".to_string(),
            "sub/a.ogg".to_string(),
            "sub/deep/x.wav".to_string(),
            "sub/z".to_string(),
            "a.mp3".to_string(),
        ])
    );
}

#[test]
fn an_empty_directory_gives_no_file() {
    assert_eq!(walk_dir(Node::<String>::Dir(vec![])), Ok(vec![]));
}

#[test]
fn a_directory_below_that_cannot_be_read_fails_the_walk() {
    let tree = Node::Dir(vec![file("a"), Node::Dir(vec![file("b"), Node::Unreadable]), file("c")]);
    assert_eq!(walk_dir(tree), Err(WalkError::Unreadable));
}

#[test]
fn only_a_directory_can_be_walked() {
    assert_eq!(walk_dir(file("a")), Err(WalkError::Unreadable));
    assert_eq!(walk_dir(Node::<String>::Other), Err(WalkError::Unreadable));
    assert_eq!(walk_dir(Node::<String>::Unreadable), Err(WalkError::Unreadable));
}

#[test]
fn a_walk_appends_to_what_is_there() {
    let mut data = vec![1u32, 2];
    let entries = vec![Node::File(3u32), Node::Dir(vec![Node::File(4)]), Node::Other];
    assert_eq!(walk_dir_recursive(entries, &mut data), Ok(()));
    assert_eq!(data, vec![1, 2, 3, 4]);
}

#[test]
fn a_file_as_input_is_the_playlist() {
    assert_eq!(handle_input_path(file("song.flac")), Ok(vec!["song.flac".to_string()]));
}

#[test]
fn a_directory_as_input_is_walked() {
    let tree = Node::Dir(vec![Node::Dir(vec![file("1")]), file("2")]);
    assert_eq!(handle_input_path(tree), Ok(vec!["1".to_string(), "2".to_string()]));
    assert_eq!(handle_input_path(Node::<String>::Other), Err(WalkError::Unreadable));
    assert_eq!(handle_input_path(Node::<String>::Unreadable), Err(WalkError::Unreadable));
}

#[test]
fn a_session_takes_up_each_track_once_in_order() {
    let mut session = Session::new(vec!["a", "b", "c"]);
    assert_eq!(session.len(), 3);
    assert!(!session.finished());
    assert_eq!(session.next_track(), Some(&"a"));
    assert_eq!(session.next_track(), Some(&"b"));
    assert_eq!(session.next_track(), Some(&"c"));
    assert!(session.finished());
    assert_eq!(session.next_track(), None);
    assert_eq!(session.next_track(), None);
    assert!(session.finished());
}

#[test]
fn an_empty_session_is_finished() {
    let mut session = Session::<String>::new(vec![]);
    assert!(session.finished());
    assert_eq!(session.next_track(), None);
}

#[test]
fn a_shuffled_session_holds_the_same_tracks() {
    let tracks: Vec<u32> = (0..200).collect();
    let mut session = Session::shuffled(tracks.clone());
    assert_eq!(session.len(), 200);
    let mut order = Vec::new();
    while let Some(track) = session.next_track() {
        order.push(*track);
    }
    assert!(session.finished());
    assert_ne!(order, tracks);
    order.sort();
    assert_eq!(order, tracks);
}

#[test]
fn a_shuffled_session_keeps_tracks_that_were_given_twice() {
    let tracks = vec![7u8, 7, 7, 9, 9];
    let mut session = Session::shuffled(tracks.clone());
    let mut order = Vec::new();
    while let Some(track) = session.next_track() {
        order.push(*track);
    }
    order.sort();
    assert_eq!(order, tracks);
}

#[test]
fn an_unreadable_file_is_skipped_and_the_others_are_played() {
    let files = vec!["one.flac", "broken.flac", "two.flac", "three.flac"];
    let mut session = Session::new(files);
    let mut state = PlayerState::new();
    let mut played = Vec::new();
    let mut skipped = Vec::new();
    loop {
        let name = match session.next_track() {
            Some(name) => *name,
            None => break,
        };
        let opened = if name == "broken.flac" { Opened::Unreadable } else { playable(2) };
        match session.begin_stream(&mut state, opened) {
            Err(skip) => skipped.push((name, skip)),
            Ok((mut stream, tx)) => {
                assert_eq!(state.bound(), Some(tx));
                assert!(stream.connected());
                assert!(stream.started());
                let chunk = vec![1u8; 64];
                let mut out = vec![0u8; 64];
                assert!(!stream.on_process(Ok(&chunk), &mut out).stop);
                let eof = SongReaderError::IoError(IoErrorKind::UnexpectedEof);
                assert!(stream.on_process(Err(eof), &mut out).stop);
                assert_eq!(session.end_stream(&mut state, stream), Some(TrackOutcome::Played));
                assert_eq!(state.bound(), None);
                played.push(name);
            },
        }
    }
    assert_eq!(played, vec!["one.flac", "two.flac", "three.flac"]);
    assert_eq!(skipped, vec![("broken.flac", Skip::Load(LoadError::Unreadable))]);
    assert!(session.finished());
}

#[test]
fn a_track_that_is_not_stereo_is_skipped() {
    let mut session = Session::new(vec!["mono", "surround", "stereo"]);
    let mut state = PlayerState::new();
    session.next_track();
    assert_eq!(session.begin_stream(&mut state, playable(1)).err(), Some(Skip::Channels(1)));
    session.next_track();
    assert_eq!(session.begin_stream(&mut state, playable(6)).err(), Some(Skip::Channels(6)));
    assert_eq!(state.bound(), None);
    session.next_track();
    let (stream, tx) = session.begin_stream(&mut state, playable(2)).unwrap();
    assert_eq!(tx, PipewireLoopTx { stream: 0 });
    assert_eq!(stream.phase(), Phase::Constructing);
    assert_eq!(state.bound(), Some(tx));
}

#[test]
fn a_file_that_gives_no_track_is_skipped() {
    let mut session = Session::new(vec![1, 2]);
    let mut state = PlayerState::new();
    session.next_track();
    assert_eq!(
        session.begin_stream(&mut state, Opened::Unrecognized).err(),
        Some(Skip::Load(LoadError::Unrecognized))
    );
    let empty = Opened::Probed(Probed { tags: vec![], track: None });
    assert_eq!(
        session.begin_stream(&mut state, empty).err(),
        Some(Skip::Load(LoadError::NoTracks))
    );
    assert_eq!(state.bound(), None);
    assert!(!session.finished());
}

#[test]
fn one_stream_is_current_at_a_time() {
    let mut session = Session::new(vec!["a", "b"]);
    let mut state = PlayerState::new();
    session.next_track();
    let (first, tx) = session.begin_stream(&mut state, playable(2)).unwrap();
    session.next_track();
    assert_eq!(session.begin_stream(&mut state, playable(2)).err(), Some(Skip::Busy));
    assert_eq!(state.bound(), Some(tx));
    assert!(!session.finished());
    assert_eq!(session.end_stream(&mut state, first), None);
    assert!(session.finished());
    let (_second, next) = session.begin_stream(&mut state, playable(2)).unwrap();
    assert_eq!(next, PipewireLoopTx { stream: 1 });
    assert_eq!(state.bound(), Some(next));
    assert!(!session.finished());
}

#[test]
fn each_stream_gets_a_channel_of_its_own() {
    let mut session = Session::new(vec!["a", "b", "c"]);
    let mut state = PlayerState::new();
    assert_eq!(state.submit(Command::Play), Routed::Dropped);
    let mut seen = Vec::new();
    while session.next_track().is_some() {
        let (mut stream, tx) = session.begin_stream(&mut state, playable(2)).unwrap();
        assert!(!seen.contains(&tx));
        seen.push(tx);
        assert_eq!(
            state.submit(Command::Skip),
            Routed::Forward(Delivery { to: tx, command: Command::Skip })
        );
        stream.connected();
        stream.started();
        stream.handle_command(Command::Skip);
        assert_eq!(session.end_stream(&mut state, stream), Some(TrackOutcome::Skipped));
        assert_eq!(state.submit(Command::Pause), Routed::Dropped);
    }
    assert_eq!(seen.len(), 3);
    assert!(session.finished());
}
