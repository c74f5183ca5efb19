use pwplayer::command::{ArgumentFault, Command, ParseError, Timestamp};
use pwplayer::control::{diagnostic, handle_client, handle_line, ClientAction, LineOutcome};
use pwplayer::state::{Delivery, PipewireLoopTx, PlayerState, Routed};

#[test]
fn a_command_is_handed_to_the_relay() {
    assert_eq!(handle_line("play"), ClientAction::Submit(Command::Play));
    assert_eq!(handle_line("skip\n"), ClientAction::Submit(Command::Skip));
    assert_eq!(
        handle_line("seek 15"),
        ClientAction::Submit(Command::Seek(Timestamp { seconds: 15, nanos: 0 }))
    );
    assert_eq!(
        handle_line("vol 20"),
        ClientAction::Submit(Command::from_str("volume 20").unwrap())
    );
}

#[test]
fn done_closes_the_connection_and_quit_ends_the_process() {
    assert_eq!(handle_line("done"), ClientAction::Close);
    assert_eq!(handle_line(" done now"), ClientAction::Close);
    assert_eq!(handle_line("quit"), ClientAction::Quit);
}

#[test]
fn a_line_that_is_no_command_gets_a_reply() {
    assert_eq!(handle_line(""), ClientAction::Reply(ParseError::EmptyCommand));
    assert_eq!(handle_line("louder"), ClientAction::Reply(ParseError::UnrecognizedCommand));
    assert_eq!(
        handle_line("seek soon"),
        ClientAction::Reply(ParseError::ArgumentError(ArgumentFault::Malformed))
    );
    assert_eq!(
        handle_line("volume"),
        ClientAction::Reply(ParseError::ArgumentError(ArgumentFault::Missing))
    );
}

#[test]
fn each_error_has_its_text() {
    assert_eq!(diagnostic(ParseError::EmptyCommand), "Empty command");
    assert_eq!(diagnostic(ParseError::UnrecognizedCommand), "Unrecognized command");
    assert_eq!(
        diagnostic(ParseError::ArgumentError(ArgumentFault::Missing)),
        "Expected argument"
    );
    assert_eq!(
        diagnostic(ParseError::ArgumentError(ArgumentFault::Malformed)),
        "Invalid argument"
    );
    assert_eq!(
        diagnostic(ParseError::ArgumentError(ArgumentFault::OutOfRange)),
        "Argument out of range"
    );
}

#[test]
fn a_line_reaches_the_stream_that_is_playing() {
    let mut state = PlayerState::new();
    assert_eq!(handle_client("pause", &mut state), LineOutcome::Routed(Routed::Dropped));
    let tx = PipewireLoopTx { stream: 2 };
    state.update_tx(tx);
    assert_eq!(
        handle_client("pause", &mut state),
        LineOutcome::Routed(Routed::Forward(Delivery { to: tx, command: Command::Pause }))
    );
    assert_eq!(handle_client("seek 10", &mut state), LineOutcome::Routed(Routed::Stored));
    assert_eq!(handle_client("seek 20", &mut state), LineOutcome::Routed(Routed::Stored));
    assert_eq!(state.get_seek(), Some(Timestamp { seconds: 20, nanos: 0 }));
}

#[test]
fn a_bad_line_done_and_quit_leave_the_relay_alone() {
    let mut state = PlayerState::new();
    state.update_tx(PipewireLoopTx { stream: 0 });
    state.seek_to(Timestamp { seconds: 1, nanos: 0 });
    assert_eq!(
        handle_client("seek 99999999999999999999", &mut state),
        LineOutcome::Reply(ParseError::ArgumentError(ArgumentFault::OutOfRange))
    );
    assert_eq!(handle_client("done", &mut state), LineOutcome::Close);
    assert_eq!(handle_client("quit", &mut state), LineOutcome::Quit);
    assert_eq!(state.bound(), Some(PipewireLoopTx { stream: 0 }));
    assert_eq!(state.get_seek(), Some(Timestamp { seconds: 1, nanos: 0 }));
}
