//! The bot's request model, its command language and its replies.

pub mod model;
pub mod mw_auth;
pub mod routes_bot_request;
pub mod template;
