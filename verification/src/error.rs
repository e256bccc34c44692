//! The error kinds that the bot reports.

use crate::web::model::ChatIdType;
use vstd::prelude::*;
use vstd::string::StringExecFns;

verus! {

/// Everything that can go wrong while serving a request. None of these ends
/// the process: each is handed back to the caller.
#[derive(Debug)]
pub enum Error {
    // -- Sys
    ConfigMissingEnv(&'static str),
    RedisConnectionGetFail,
    RedisCommandFail(String),
    // -- Bot
    AuthFail,
    ChatTypeNotSupported(ChatIdType),
    // -- Game
    GameCommandParseFail(&'static str),
    GameNotFound(String),
    GameAlreadyStarted(String),
    GameAlreadyFinished(String),
    GameInvalidCategoryName,
}

/// What the `Debug` form of a string is: the string between double quotes,
/// with the characters that need it escaped.
pub uninterp spec fn quoted(text: Seq<char>) -> Seq<char>;

/// Calls `format!` of the standard library with the `Debug` form of a
/// string slice. The contract gives the result its name and claims nothing
/// else of it.
#[verifier::external_body]
fn quote(text: &str) -> (quoted_text: String)
    ensures
        quoted_text@ == quoted(text@),
{
    format!("{text:?}")
}

/// `name` with the `Debug` form of `text` in round brackets behind it.
pub open spec fn tagged(name: Seq<char>, text: Seq<char>) -> Seq<char> {
    name + "("@ + quoted(text) + ")"@
}

/// `name` with the `Debug` form of `text` in round brackets behind it.
fn tag(name: &str, text: &str) -> (line: String)
    ensures
        line@ == tagged(name@, text@),
{
    let mut line = String::from_str(name);
    line.append("(");
    line.append(quote(text).as_str());
    line.append(")");
    line
}

impl Error {
    /// The error written out: the name of its kind and, in round brackets,
    /// what it carries.
    pub open spec fn text(&self) -> Seq<char> {
        match *self {
            Error::ConfigMissingEnv(name) => tagged("ConfigMissingEnv"@, name@),
            Error::RedisConnectionGetFail => "RedisConnectionGetFail"@,
            Error::RedisCommandFail(key) => tagged("RedisCommandFail"@, key@),
            Error::AuthFail => "AuthFail"@,
            Error::ChatTypeNotSupported(ChatIdType::BotGroupKey) =>
                "ChatTypeNotSupported(BotGroupKey)"@,
            Error::ChatTypeNotSupported(ChatIdType::ChatId) => "ChatTypeNotSupported(ChatId)"@,
            Error::GameCommandParseFail(help) => tagged("GameCommandParseFail"@, help@),
            Error::GameNotFound(group) => tagged("GameNotFound"@, group@),
            Error::GameAlreadyStarted(group) => tagged("GameAlreadyStarted"@, group@),
            Error::GameAlreadyFinished(group) => tagged("GameAlreadyFinished"@, group@),
            Error::GameInvalidCategoryName => "GameInvalidCategoryName"@,
        }
    }

    /// What the user is shown for this error: the help text where the
    /// message held no command, else `err: ` and the error written out.
    pub open spec fn response(&self) -> Seq<char> {
        match *self {
            Error::GameCommandParseFail(help) => help@,
            _ => "err: "@ + self.text(),
        }
    }

    /// The error written out.
    pub fn to_text(&self) -> (text: String)
        ensures
            text@ == self.text(),
    {
        match self {
            Error::ConfigMissingEnv(name) => tag("ConfigMissingEnv", name),
            Error::RedisConnectionGetFail => String::from_str("RedisConnectionGetFail"),
            Error::RedisCommandFail(key) => tag("RedisCommandFail", key.as_str()),
            Error::AuthFail => String::from_str("AuthFail"),
            Error::ChatTypeNotSupported(ChatIdType::BotGroupKey) => String::from_str(
                "ChatTypeNotSupported(BotGroupKey)",
            ),
            Error::ChatTypeNotSupported(ChatIdType::ChatId) => String::from_str(
                "ChatTypeNotSupported(ChatId)",
            ),
            Error::GameCommandParseFail(help) => tag("GameCommandParseFail", help),
            Error::GameNotFound(group) => tag("GameNotFound", group.as_str()),
            Error::GameAlreadyStarted(group) => tag("GameAlreadyStarted", group.as_str()),
            Error::GameAlreadyFinished(group) => tag("GameAlreadyFinished", group.as_str()),
            Error::GameInvalidCategoryName => String::from_str("GameInvalidCategoryName"),
        }
    }

    /// What the user is shown for this error.
    pub fn response_text(&self) -> (text: String)
        ensures
            text@ == self.response(),
    {
        match self {
            Error::GameCommandParseFail(help) => String::from_str(help),
            _ => {
                let mut text = String::from_str("err: ");
                text.append(self.to_text().as_str());
                text
            },
        }
    }
}

impl Clone for Error {
    fn clone(&self) -> (copy: Self)
        ensures
            copy == *self,
    {
        match self {
            Error::ConfigMissingEnv(name) => Error::ConfigMissingEnv(name),
            Error::RedisConnectionGetFail => Error::RedisConnectionGetFail,
            Error::RedisCommandFail(key) => Error::RedisCommandFail(key.clone()),
            Error::AuthFail => Error::AuthFail,
            Error::ChatTypeNotSupported(kind) => Error::ChatTypeNotSupported(*kind),
            Error::GameCommandParseFail(help) => Error::GameCommandParseFail(help),
            Error::GameNotFound(group) => Error::GameNotFound(group.clone()),
            Error::GameAlreadyStarted(group) => Error::GameAlreadyStarted(group.clone()),
            Error::GameAlreadyFinished(group) => Error::GameAlreadyFinished(group.clone()),
            Error::GameInvalidCategoryName => Error::GameInvalidCategoryName,
        }
    }
}

} // verus!
