//! Timed, multi-round trivia sessions for chat groups.
//!
//! The crate holds the session manager (registry of running games, the
//! round state machine, the round clock and the score ledger), the quiz
//! pools it draws from, and the command and reply logic of the chat bot.
//! Everything here is sequential: callers that share a manager between
//! tasks put it behind a lock of their own.

pub mod error;
pub mod game;
pub mod text;
pub mod web;

pub use error::Error;
