//! The control commands and the grammar of a control line.

use crate::number::{
    float_literal, is_float_literal, parse_unsigned, unsigned_value, NumberError,
};
use crate::text::{chars_of, next_word, words, words_from};
use vstd::prelude::*;
use vstd::slice::slice_subrange;

verus! {

/// A position in a track.
#[derive(Clone, Copy, Debug, PartialEq, Eq, Structural)]
pub struct Timestamp {
    /// Whole seconds.
    pub seconds: u64,
    /// The fraction of a second behind them, in nanoseconds.
    pub nanos: u32,
}

impl Timestamp {
    /// The fraction is less than one second.
    pub open spec fn is_valid(&self) -> bool {
        self.nanos < 1_000_000_000
    }

    /// The position `seconds` whole seconds into the track.
    pub fn from_seconds(seconds: u64) -> (time: Timestamp)
        ensures
            time == (Timestamp { seconds, nanos: 0 }),
            time.is_valid(),
    {
        Timestamp { seconds, nanos: 0 }
    }
}

/// A gain, held as the decimal literal of its percentage: the gain is the
/// value of the literal divided by 100. Nothing bounds it, so that a literal
/// above 100 or below 0 stands as it was written.
#[derive(Debug, PartialEq, Eq)]
pub struct Gain {
    percent: String,
}

impl Clone for Gain {
    fn clone(&self) -> (copy: Gain)
        ensures
            copy@ == self@,
    {
        proof {
            use_type_invariant(self);
        }
        Gain { percent: self.percent.clone() }
    }
}

impl View for Gain {
    type V = Seq<char>;

    closed spec fn view(&self) -> Seq<char> {
        self.percent@
    }
}

impl Gain {
    #[verifier::type_invariant]
    spec fn well_formed(self) -> bool {
        is_float_literal(self.percent@)
    }

    /// The gain whose percentage `word` writes, if `word` is a decimal literal.
    pub fn parse(word: &str) -> (gain: Option<Gain>)
        ensures
            gain is Some <==> is_float_literal(word@),
            gain matches Some(g) ==> g@ == word@,
    {
        let chars: Vec<char> = chars_of(word);
        if float_literal(chars.as_slice()) {
            Some(Gain { percent: word.to_owned() })
        } else {
            None
        }
    }

    /// The literal of the percentage.
    pub fn percent(&self) -> (literal: &str)
        ensures
            literal@ == self@,
            is_float_literal(literal@),
    {
        proof {
            use_type_invariant(self);
        }
        self.percent.as_str()
    }
}

/// A control command.
#[derive(Debug, PartialEq, Eq)]
pub enum Command {
    Play,
    Pause,
    Toggle,
    Volume(Gain),
    Seek(Timestamp),
    Skip,
    Done,
    Quit,
}

impl Clone for Command {
    fn clone(&self) -> (copy: Command)
        ensures
            copy@ == self@,
    {
        match self {
            Command::Play => Command::Play,
            Command::Pause => Command::Pause,
            Command::Toggle => Command::Toggle,
            Command::Volume(gain) => Command::Volume(gain.clone()),
            Command::Seek(time) => Command::Seek(*time),
            Command::Skip => Command::Skip,
            Command::Done => Command::Done,
            Command::Quit => Command::Quit,
        }
    }
}

/// What a command is, with a gain taken as its literal.
pub enum CommandView {
    Play,
    Pause,
    Toggle,
    Volume(Seq<char>),
    Seek(Timestamp),
    Skip,
    Done,
    Quit,
}

impl View for Command {
    type V = CommandView;

    open spec fn view(&self) -> CommandView {
        match *self {
            Command::Play => CommandView::Play,
            Command::Pause => CommandView::Pause,
            Command::Toggle => CommandView::Toggle,
            Command::Volume(gain) => CommandView::Volume(gain@),
            Command::Seek(time) => CommandView::Seek(time),
            Command::Skip => CommandView::Skip,
            Command::Done => CommandView::Done,
            Command::Quit => CommandView::Quit,
        }
    }
}

/// What is wrong with the argument of a command.
#[derive(Clone, Copy, Debug, PartialEq, Eq, Structural)]
pub enum ArgumentFault {
    /// The command needs an argument and the line has none.
    Missing,
    /// The argument is not written as the number that the command takes.
    Malformed,
    /// The argument is a number too large for the command.
    OutOfRange,
}

/// Why a line is no command.
#[derive(Clone, Copy, Debug, PartialEq, Eq, Structural)]
pub enum ParseError {
    /// The line holds no word.
    EmptyCommand,
    /// The first word names no command.
    UnrecognizedCommand,
    /// The argument is missing or is not the number asked for.
    ArgumentError(ArgumentFault),
}

/// The command that the words of a line give. Words behind the command and
/// its argument are not looked at.
pub open spec fn parse_words(w: Seq<Seq<char>>) -> Result<CommandView, ParseError> {
    if w.len() == 0 {
        Err(ParseError::EmptyCommand)
    } else if w[0] == "play"@ {
        Ok(CommandView::Play)
    } else if w[0] == "pause"@ {
        Ok(CommandView::Pause)
    } else if w[0] == "toggle"@ {
        Ok(CommandView::Toggle)
    } else if w[0] == "quit"@ {
        Ok(CommandView::Quit)
    } else if w[0] == "done"@ {
        Ok(CommandView::Done)
    } else if w[0] == "skip"@ {
        Ok(CommandView::Skip)
    } else if w[0] == "volume"@ || w[0] == "vol"@ {
        if w.len() < 2 {
            Err(ParseError::ArgumentError(ArgumentFault::Missing))
        } else if is_float_literal(w[1]) {
            Ok(CommandView::Volume(w[1]))
        } else {
            Err(ParseError::ArgumentError(ArgumentFault::Malformed))
        }
    } else if w[0] == "seek"@ {
        if w.len() < 2 {
            Err(ParseError::ArgumentError(ArgumentFault::Missing))
        } else {
            match unsigned_value(w[1]) {
                Ok(seconds) => Ok(CommandView::Seek(Timestamp { seconds, nanos: 0 })),
                Err(NumberError::Malformed) => Err(
                    ParseError::ArgumentError(ArgumentFault::Malformed),
                ),
                Err(NumberError::OutOfRange) => Err(
                    ParseError::ArgumentError(ArgumentFault::OutOfRange),
                ),
            }
        }
    } else {
        Err(ParseError::UnrecognizedCommand)
    }
}

/// The command that a line gives.
pub open spec fn parse_line(line: Seq<char>) -> Result<CommandView, ParseError> {
    parse_words(words(line))
}

/// What `from_str` returns, with the command taken by its view.
pub open spec fn parsed_view(parsed: Result<Command, ParseError>) -> Result<
    CommandView,
    ParseError,
> {
    match parsed {
        Ok(command) => Ok(command@),
        Err(e) => Err(e),
    }
}

impl std::str::FromStr for Command {
    type Err = ParseError;

    fn from_str(s: &str) -> (parsed: Result<Command, ParseError>)
        ensures
            parsed_view(parsed) == parse_line(s@),
    {
        Command::from_str(s)
    }
}

/// Whether `word` spells `name`.
fn word_is(word: &[char], name: &str) -> (b: bool)
    ensures
        b == (word@ == name@),
{
    let n: usize = word.len();
    if n != name.unicode_len() {
        return false;
    }
    let mut i: usize = 0;
    while i < n
        invariant
            i <= n,
            n == word@.len(),
            n == name@.len(),
            forall|k: int| 0 <= k < i ==> word@[k] == name@[k],
        decreases n - i,
    {
        if word[i] != name.get_char(i) {
            return false;
        }
        i += 1;
    }
    assert(word@ =~= name@);
    true
}

impl Command {
    /// Reads one control line. Every line gives a command or an error, and the
    /// same line always gives the same one.
    pub fn from_str(s: &str) -> (parsed: Result<Command, ParseError>)
        ensures
            parsed_view(parsed) == parse_line(s@),
    {
        let chars: Vec<char> = chars_of(s);
        let (start, end) = match next_word(&chars, 0) {
            Some(bounds) => bounds,
            None => {
                return Err(ParseError::EmptyCommand);
            },
        };
        let name: &[char] = slice_subrange(chars.as_slice(), start, end);
        let ghost rest = words_from(chars@, end as int);
        assert(words(s@) == seq![name@] + rest);
        assert(words(s@)[0] == name@);
        if word_is(name, "play") {
            Ok(Command::Play)
        } else if word_is(name, "pause") {
            Ok(Command::Pause)
        } else if word_is(name, "toggle") {
            Ok(Command::Toggle)
        } else if word_is(name, "quit") {
            Ok(Command::Quit)
        } else if word_is(name, "done") {
            Ok(Command::Done)
        } else if word_is(name, "skip") {
            Ok(Command::Skip)
        } else if word_is(name, "volume") || word_is(name, "vol") {
            match next_word(&chars, end) {
                None => Err(ParseError::ArgumentError(ArgumentFault::Missing)),
                Some((from, to)) => {
                    assert(words(s@)[1] == chars@.subrange(from as int, to as int));
                    match Gain::parse(s.substring_char(from, to)) {
                        Some(gain) => Ok(Command::Volume(gain)),
                        None => Err(ParseError::ArgumentError(ArgumentFault::Malformed)),
                    }
                },
            }
        } else if word_is(name, "seek") {
            match next_word(&chars, end) {
                None => Err(ParseError::ArgumentError(ArgumentFault::Missing)),
                Some((from, to)) => {
                    assert(words(s@)[1] == chars@.subrange(from as int, to as int));
                    match parse_unsigned(slice_subrange(chars.as_slice(), from, to)) {
                        Ok(seconds) => Ok(Command::Seek(Timestamp::from_seconds(seconds))),
                        Err(NumberError::Malformed) => Err(
                            ParseError::ArgumentError(ArgumentFault::Malformed),
                        ),
                        Err(NumberError::OutOfRange) => Err(
                            ParseError::ArgumentError(ArgumentFault::OutOfRange),
                        ),
                    }
                },
            }
        } else {
            Err(ParseError::UnrecognizedCommand)
        }
    }
}

} // verus!
