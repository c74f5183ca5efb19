//! What a control connection does with each line that it reads.

use crate::command::{
    parse_line, ArgumentFault, Command, CommandView, ParseError,
};
use crate::state::{PlayerState, RelayEvent, Routed};
use vstd::prelude::*;

verus! {

/// What a connection does after reading a line.
#[derive(Debug, PartialEq, Eq)]
pub enum ClientAction {
    /// The line is no command: answer with the diagnostic and read on.
    Reply(ParseError),
    /// Hand the command to the relay and read on.
    Submit(Command),
    /// Close this connection and no other.
    Close,
    /// End the process at once.
    Quit,
}

/// What a connection does with a line that parses as `parsed`.
pub open spec fn action_for(parsed: Result<CommandView, ParseError>, action: ClientAction) -> bool {
    match parsed {
        Err(e) => action == ClientAction::Reply(e),
        Ok(CommandView::Done) => action == ClientAction::Close,
        Ok(CommandView::Quit) => action == ClientAction::Quit,
        Ok(view) => action matches ClientAction::Submit(command) && command@ == view,
    }
}

/// Decides what a connection does with one line that it has read.
pub fn handle_line(line: &str) -> (action: ClientAction)
    ensures
        action_for(parse_line(line@), action),
{
    match Command::from_str(line) {
        Err(e) => ClientAction::Reply(e),
        Ok(Command::Done) => ClientAction::Close,
        Ok(Command::Quit) => ClientAction::Quit,
        Ok(command) => ClientAction::Submit(command),
    }
}

/// What became of a line at the relay.
#[derive(Debug, PartialEq, Eq)]
pub enum LineOutcome {
    /// The line is no command: answer with the diagnostic and read on.
    Reply(ParseError),
    /// The command went to the relay, which did this with it. Read on.
    Routed(Routed),
    /// Close this connection and no other.
    Close,
    /// End the process at once.
    Quit,
}

/// Reads one line of a connection and hands its command to the relay. A
/// line that is no command, `done` and `quit` leave the relay as it is.
pub fn handle_client(line: &str, state: &mut PlayerState) -> (outcome: LineOutcome)
    ensures
        match parse_line(line@) {
            Err(e) => outcome == LineOutcome::Reply(e) && final(state)@ == old(state)@,
            Ok(CommandView::Done) => outcome == LineOutcome::Close && final(state)@ == old(
                state,
            )@,
            Ok(CommandView::Quit) => outcome == LineOutcome::Quit && final(state)@ == old(state)@,
            Ok(view) => exists|command: Command|
                {
                    &&& command@ == view
                    &&& outcome == LineOutcome::Routed(old(state)@.submit(command).1)
                    &&& final(state)@ == old(state)@.step(RelayEvent::Submit(command))
                },
        },
{
    match handle_line(line) {
        ClientAction::Reply(e) => LineOutcome::Reply(e),
        ClientAction::Close => LineOutcome::Close,
        ClientAction::Quit => LineOutcome::Quit,
        ClientAction::Submit(command) => {
            let ghost handed = command;
            let routed: Routed = state.submit(command);
            assert(handed@ == parse_line(line@)->Ok_0);
            LineOutcome::Routed(routed)
        },
    }
}

/// The text that a connection answers a line with that is no command.
pub open spec fn diagnostic_text(error: ParseError) -> Seq<char> {
    match error {
        ParseError::EmptyCommand => "Empty command"@,
        ParseError::UnrecognizedCommand => "Unrecognized command"@,
        ParseError::ArgumentError(ArgumentFault::Missing) => "Expected argument"@,
        ParseError::ArgumentError(ArgumentFault::Malformed) => "Invalid argument"@,
        ParseError::ArgumentError(ArgumentFault::OutOfRange) => "Argument out of range"@,
    }
}

/// The text that a connection answers a line with that is no command.
pub fn diagnostic(error: ParseError) -> (text: &'static str)
    ensures
        text@ == diagnostic_text(error),
{
    match error {
        ParseError::EmptyCommand => "Empty command",
        ParseError::UnrecognizedCommand => "Unrecognized command",
        ParseError::ArgumentError(ArgumentFault::Missing) => "Expected argument",
        ParseError::ArgumentError(ArgumentFault::Malformed) => "Invalid argument",
        ParseError::ArgumentError(ArgumentFault::OutOfRange) => "Argument out of range",
    }
}

} // verus!
