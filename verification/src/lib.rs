//! Telegram Bot API `sendMessage` message building: safe message builders,
//! Telegram formatting (MarkdownV2 / HTML) escaping, whole-message length
//! limits, and the decisions of the send clients.
//!
//! The crate owns the complete Telegram message before sending, so it can
//! apply Telegram's message length limit to the whole message.

use vstd::prelude::*;

pub mod error;
pub mod keyboard;
pub mod laws;
pub mod limits;
pub mod message;
pub mod sanitize;
pub mod send;
pub mod text;

pub use error::Error;
pub use keyboard::{InlineKeyboardButton, InlineKeyboardMarkup};
pub use limits::{CALLBACK_DATA_MAX_BYTES, SEND_MESSAGE_TEXT_MAX_CHARS};
pub use message::{MessageBuilder, ParseMode, TelegramMessage, ValueBudget};
pub use send::{
    ApiResponse, BotConfig, DEFAULT_TIMEOUT_SECS, ParseFailureFallback, SendMessageRequest,
    SendOptions, SendStep, SentMessage, fallback_plain_message,
};

verus! {

/// The package version, for services that log which release they run.
pub const VERSION: &'static str = "0.2.0";

} // verus!
