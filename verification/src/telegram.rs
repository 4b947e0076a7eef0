//! Messages for a Telegram bot and what the bot API answers.

pub mod markdown;
pub mod message;
pub mod response;
pub mod api;
