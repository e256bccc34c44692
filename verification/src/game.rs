//! Quiz content, quiz pools and the session manager, and the plain command
//! words of a game without categories.

pub mod db;
pub mod model;
pub mod scores;
pub mod state;

use crate::text::{after_first_word, first_word, split_first_word, str_eq, trim, trimmed};
use vstd::prelude::*;
use vstd::string::StringExecFns;

verus! {

/// What a message asks for, where games have no categories.
#[derive(Debug)]
pub enum Command {
    Start,
    Stop,
    Answer(String),
    Ranking,
}

/// A command, its text as a sequence of characters.
pub enum CommandText {
    Start,
    Stop,
    Answer(Seq<char>),
    Ranking,
}

impl View for Command {
    type V = CommandText;

    open spec fn view(&self) -> CommandText {
        match self {
            Command::Start => CommandText::Start,
            Command::Stop => CommandText::Stop,
            Command::Answer(answer) => CommandText::Answer(answer@),
            Command::Ranking => CommandText::Ranking,
        }
    }
}

/// The command that a message without white space at its ends holds. The
/// word before the first space decides; an answer must follow its word.
pub open spec fn parse_command(text: Seq<char>) -> Option<CommandText> {
    let word = first_word(text);
    if word == "시작"@ {
        Some(CommandText::Start)
    } else if word == "중지"@ {
        Some(CommandText::Stop)
    } else if word == "정답"@ {
        match after_first_word(text) {
            Some(answer) => Some(CommandText::Answer(answer)),
            None => None,
        }
    } else if word == "랭킹"@ {
        Some(CommandText::Ranking)
    } else {
        None
    }
}

impl Command {
    /// The command that `text`, a message without white space at its ends,
    /// holds; none where it holds none.
    pub fn from_trimmed(text: &str) -> (command: Option<Command>)
        ensures
            match command {
                Some(found) => parse_command(text@) == Some(found@),
                None => parse_command(text@) is None,
            },
    {
        let (word, argument) = split_first_word(text);
        if str_eq(word, "시작") {
            Some(Command::Start)
        } else if str_eq(word, "중지") {
            Some(Command::Stop)
        } else if str_eq(word, "정답") {
            match argument {
                Some(answer) => Some(Command::Answer(String::from_str(answer))),
                None => None,
            }
        } else if str_eq(word, "랭킹") {
            Some(Command::Ranking)
        } else {
            None
        }
    }

    /// The command that the message `utterance` holds, white space at its
    /// ends set aside; none where it holds none.
    pub fn from_utterance(utterance: &str) -> (command: Option<Command>)
        ensures
            match command {
                Some(found) => parse_command(trimmed(utterance@)) == Some(found@),
                None => parse_command(trimmed(utterance@)) is None,
            },
    {
        Command::from_trimmed(trim(utterance))
    }
}

} // verus!
