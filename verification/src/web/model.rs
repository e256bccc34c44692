//! What a chat request carries, and the commands a message can hold.

use crate::game::db::{is_valid_category, valid_category};
use crate::text::{after_first_word, first_word, split_first_word, str_eq, trim, trimmed};
use vstd::prelude::*;
use vstd::string::StringExecFns;

verus! {

/// What the bot proxy sends for one message.
#[derive(Debug)]
pub struct BotRequest {
    pub user_request: UserRequest,
}

#[derive(Debug)]
pub struct UserRequest {
    pub user: User,
    pub chat: Chat,
    pub utterance: String,
}

#[derive(Debug)]
pub struct User {
    pub id: String,
}

#[derive(Debug)]
pub struct Chat {
    pub id: String,
    pub type_: ChatIdType,
}

/// The kind of identifier a chat comes with.
#[derive(Debug, Clone, Copy, PartialEq, Eq, Structural)]
pub enum ChatIdType {
    BotGroupKey,
    ChatId,
}

/// What a message asks the bot to do.
#[derive(Debug)]
pub enum Command {
    /// Start a game, of one category or of all.
    Start(Option<String>),
    Stop,
    Answer(String),
    Ranking,
}

/// A command, its texts as sequences of characters.
pub enum CommandText {
    Start(Option<Seq<char>>),
    Stop,
    Answer(Seq<char>),
    Ranking,
}

impl View for Command {
    type V = CommandText;

    open spec fn view(&self) -> CommandText {
        match self {
            Command::Start(Some(category)) => CommandText::Start(Some(category@)),
            Command::Start(None) => CommandText::Start(None),
            Command::Stop => CommandText::Stop,
            Command::Answer(answer) => CommandText::Answer(answer@),
            Command::Ranking => CommandText::Ranking,
        }
    }
}

/// Whether `word` is one of the words that stop a game.
pub open spec fn stop_word(word: Seq<char>) -> bool {
    word == "중지"@ || word == "중단"@ || word == "정지"@ || word == "종료"@ || word == "그만"@
        || word == "멈춰"@
}

/// Whether `word` is one of the words that ask for the ranking.
pub open spec fn ranking_word(word: Seq<char>) -> bool {
    word == "랭킹"@ || word == "순위"@
}

/// The command that a message without white space at its ends holds. The
/// word before the first space decides; what stands behind that space is
/// the category of a start, which must be a known one, or the answer of an
/// answer, which must be there.
pub open spec fn parse_command(text: Seq<char>) -> Option<CommandText> {
    let word = first_word(text);
    let argument = after_first_word(text);
    if word == "시작"@ {
        match argument {
            Some(category) => if valid_category(category) {
                Some(CommandText::Start(Some(category)))
            } else {
                None
            },
            None => Some(CommandText::Start(None)),
        }
    } else if stop_word(word) {
        Some(CommandText::Stop)
    } else if word == "정답"@ {
        match argument {
            Some(answer) => Some(CommandText::Answer(answer)),
            None => None,
        }
    } else if ranking_word(word) {
        Some(CommandText::Ranking)
    } else {
        None
    }
}

impl Command {
    /// The command that `text`, a message without white space at its ends,
    /// holds; none where it holds none.
    pub fn from_trimmed(text: &str) -> (command: Option<Command>)
        ensures
            match command {
                Some(found) => parse_command(text@) == Some(found@),
                None => parse_command(text@) is None,
            },
    {
        let (word, argument) = split_first_word(text);
        if str_eq(word, "시작") {
            match argument {
                Some(category) => {
                    if is_valid_category(category) {
                        Some(Command::Start(Some(String::from_str(category))))
                    } else {
                        None
                    }
                },
                None => Some(Command::Start(None)),
            }
        } else if str_eq(word, "중지") || str_eq(word, "중단") || str_eq(word, "정지") || str_eq(
            word,
            "종료",
        ) || str_eq(word, "그만") || str_eq(word, "멈춰") {
            Some(Command::Stop)
        } else if str_eq(word, "정답") {
            match argument {
                Some(answer) => Some(Command::Answer(String::from_str(answer))),
                None => None,
            }
        } else if str_eq(word, "랭킹") || str_eq(word, "순위") {
            Some(Command::Ranking)
        } else {
            None
        }
    }

    /// The command that the message `utterance` holds, white space at its
    /// ends set aside; none where it holds none.
    pub fn from_utterance(utterance: &str) -> (command: Option<Command>)
        ensures
            match command {
                Some(found) => parse_command(trimmed(utterance@)) == Some(found@),
                None => parse_command(trimmed(utterance@)) is None,
            },
    {
        Command::from_trimmed(trim(utterance))
    }
}

} // verus!
