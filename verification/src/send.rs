//! What the send clients decide: the request sent for a message, the
//! endpoint, how a reply is read, and the single plain-text retry after a
//! failed formatted send. The clients perform the HTTP calls themselves.

use vstd::prelude::*;
use vstd::string::to_string_from_display_ensures;
use crate::error::Error;
use crate::keyboard::InlineKeyboardMarkup;
use crate::message::{parse_mode_name, ParseMode, TelegramMessage};
use crate::limits::{lemma_truncated, SEND_MESSAGE_TEXT_MAX_CHARS};
use crate::text::push_str;

verus! {

broadcast use vstd::string::group_string_axioms;

/// Seconds a send waits for Telegram by default.
pub const DEFAULT_TIMEOUT_SECS: u64 = 6;

/// What to do when a formatted message is refused.
#[derive(Clone, Copy, Debug, PartialEq, Eq, Structural)]
pub enum ParseFailureFallback {
    /// Report the failure.
    Disabled,
    /// Send the same text once more as plain text.
    PlainText,
}

/// Per-send options.
#[derive(Clone, Debug, PartialEq, Eq)]
pub struct SendOptions {
    pub chat_id: Option<String>,
    pub disable_web_page_preview: bool,
    pub message_thread_id: Option<i64>,
    pub reply_markup: Option<InlineKeyboardMarkup>,
    pub parse_failure_fallback: ParseFailureFallback,
}

impl Default for SendOptions {
    fn default() -> (r: Self)
        ensures
            r.chat_id is None,
            r.disable_web_page_preview,
            r.message_thread_id is None,
            r.reply_markup is None,
            r.parse_failure_fallback == ParseFailureFallback::PlainText,
    {
        SendOptions {
            chat_id: None,
            disable_web_page_preview: true,
            message_thread_id: None,
            reply_markup: None,
            parse_failure_fallback: ParseFailureFallback::PlainText,
        }
    }
}

/// A message that Telegram accepted.
#[derive(Clone, Copy, Debug, PartialEq, Eq, Structural)]
pub struct SentMessage {
    pub message_id: i64,
}

/// The body of a `sendMessage` call.
#[derive(Debug, PartialEq, Eq)]
pub struct SendMessageRequest<'a> {
    pub chat_id: &'a str,
    pub text: &'a str,
    pub parse_mode: Option<&'static str>,
    pub disable_web_page_preview: bool,
    pub message_thread_id: Option<i64>,
    pub reply_markup: Option<&'a InlineKeyboardMarkup>,
}

impl<'a> SendMessageRequest<'a> {
    /// The request that sends `message` to `chat_id` with `options`.
    pub fn new(chat_id: &'a str, message: &'a TelegramMessage, options: &'a SendOptions) -> (r: Self)
        ensures
            r.chat_id@ == chat_id@,
            r.text@ == message.spec_text(),
            match parse_mode_name(message.spec_parse_mode()) {
                None => r.parse_mode is None,
                Some(name) => r.parse_mode is Some && r.parse_mode->0@ == name,
            },
            r.disable_web_page_preview == options.disable_web_page_preview,
            r.message_thread_id == options.message_thread_id,
            match options.reply_markup {
                Some(m) => r.reply_markup == Some(&m),
                None => r.reply_markup is None,
            },
    {
        SendMessageRequest {
            chat_id,
            text: message.text(),
            parse_mode: message.parse_mode_parameter(),
            disable_web_page_preview: options.disable_web_page_preview,
            message_thread_id: options.message_thread_id,
            reply_markup: options.reply_markup.as_ref(),
        }
    }
}

/// The plain-text version of a message sent when Telegram refuses its
/// formatting: the same text, without a parse mode.
pub fn fallback_plain_message(message: &TelegramMessage) -> (r: TelegramMessage)
    ensures
        r.spec_parse_mode() == ParseMode::Plain,
        r.spec_text() == message.spec_text(),
{
    let text = message.text();
    let r = TelegramMessage::from_text(ParseMode::Plain, String::from_str(text));
    proof {
        lemma_truncated(message.spec_text(), SEND_MESSAGE_TEXT_MAX_CHARS as nat);
    }
    r
}

/// Whether a send is retried as plain text: only after a failure, only for a
/// formatted message, and only when the options ask for it.
pub open spec fn retries_plain(mode: ParseMode, fallback: ParseFailureFallback, failed: bool) -> bool {
    failed && mode != ParseMode::Plain && fallback == ParseFailureFallback::PlainText
}

/// Whether the outcome of sending `message` with `options` calls for the
/// plain-text retry.
pub fn should_retry_plain(
    message: &TelegramMessage,
    options: &SendOptions,
    result: &Result<SentMessage, Error>,
) -> (r: bool)
    ensures
        r == retries_plain(message.spec_parse_mode(), options.parse_failure_fallback, result is Err),
{
    result.is_err() && message.parse_mode() != ParseMode::Plain && options.parse_failure_fallback
        == ParseFailureFallback::PlainText
}

/// The options of the plain-text retry: those of the first attempt, with no
/// further fallback.
pub fn fallback_options(options: SendOptions) -> (r: SendOptions)
    ensures
        r.chat_id == options.chat_id,
        r.disable_web_page_preview == options.disable_web_page_preview,
        r.message_thread_id == options.message_thread_id,
        r.reply_markup == options.reply_markup,
        r.parse_failure_fallback == ParseFailureFallback::Disabled,
{
    SendOptions {
        chat_id: options.chat_id,
        disable_web_page_preview: options.disable_web_page_preview,
        message_thread_id: options.message_thread_id,
        reply_markup: options.reply_markup,
        parse_failure_fallback: ParseFailureFallback::Disabled,
    }
}

/// What a client does after an attempt to send.
#[derive(Debug)]
pub enum SendStep {
    /// Report this outcome.
    Finish(Result<SentMessage, Error>),
    /// Send this message with these options, and report that outcome.
    RetryPlain { message: TelegramMessage, options: SendOptions },
}

/// The step after sending `message` with `options` gave `result`.
pub fn after_attempt(
    message: &TelegramMessage,
    options: SendOptions,
    result: Result<SentMessage, Error>,
) -> (r: SendStep)
    ensures
        if retries_plain(message.spec_parse_mode(), options.parse_failure_fallback, result is Err) {
            r matches SendStep::RetryPlain { message: m, options: o } && m.spec_parse_mode()
                == ParseMode::Plain && m.spec_text() == message.spec_text() && o.chat_id
                == options.chat_id && o.disable_web_page_preview == options.disable_web_page_preview
                && o.message_thread_id == options.message_thread_id && o.reply_markup
                == options.reply_markup && o.parse_failure_fallback == ParseFailureFallback::Disabled
        } else {
            r == SendStep::Finish(result)
        },
{
    if should_retry_plain(message, &options, &result) {
        let m = fallback_plain_message(message);
        let o = fallback_options(options);
        SendStep::RetryPlain { message: m, options: o }
    } else {
        SendStep::Finish(result)
    }
}

/// A plain-text retry is never retried again: a send retries at most once.
pub proof fn lemma_retry_at_most_once(
    mode: ParseMode,
    fallback: ParseFailureFallback,
    retry_mode: ParseMode,
    retry_fallback: ParseFailureFallback,
    retry_failed: bool,
)
    requires
        retries_plain(mode, fallback, true),
        retry_mode == ParseMode::Plain || retry_fallback == ParseFailureFallback::Disabled,
    ensures
        !retries_plain(retry_mode, retry_fallback, retry_failed),
{
}

/// The JSON envelope of every Bot API reply.
#[derive(Clone, Debug, PartialEq, Eq)]
pub struct ApiResponse<T> {
    pub ok: bool,
    pub result: Option<T>,
    pub description: Option<String>,
}

/// Whether `r` is the outcome that a decoded reply stands for: the message
/// when Telegram reports success with a result; otherwise a `Telegram` error
/// carrying Telegram's description, or a fixed description when there is none.
pub open spec fn is_api_response_outcome(
    response: ApiResponse<SentMessage>,
    r: Result<SentMessage, Error>,
) -> bool {
    if response.ok {
        match response.result {
            Some(m) => r == Ok::<SentMessage, Error>(m),
            None => r matches Err(Error::Telegram(s)) && s@ == "sendMessage returned no result"@,
        }
    } else {
        match response.description {
            Some(d) => r == Err::<SentMessage, Error>(Error::Telegram(d)),
            None => r matches Err(Error::Telegram(s)) && s@ == "unknown error"@,
        }
    }
}

/// The outcome that a decoded reply stands for.
pub fn api_response_outcome(response: ApiResponse<SentMessage>) -> (r: Result<SentMessage, Error>)
    ensures
        is_api_response_outcome(response, r),
{
    if response.ok {
        match response.result {
            Some(m) => Ok(m),
            None => Err(Error::Telegram(String::from_str("sendMessage returned no result"))),
        }
    } else {
        match response.description {
            Some(d) => Err(Error::Telegram(d)),
            None => Err(Error::Telegram(String::from_str("unknown error"))),
        }
    }
}

/// The outcome of an HTTP reply whose status Telegram sent: a status other
/// than success is a `Telegram` error carrying the body; a successful body is
/// handed on to be decoded.
pub fn http_status_outcome(status_is_success: bool, body: String) -> (r: Result<String, Error>)
    ensures
        status_is_success ==> r == Ok::<String, Error>(body),
        !status_is_success ==> r == Err::<String, Error>(Error::Telegram(body)),
{
    if status_is_success {
        Ok(body)
    } else {
        Err(Error::Telegram(body))
    }
}

/// The outcome of decoding a reply body: a decoding failure is a `Json`
/// error carrying the decoder's description.
pub fn decoded_outcome(decoded: Result<ApiResponse<SentMessage>, String>) -> (r: Result<
    SentMessage,
    Error,
>)
    ensures
        match decoded {
            Ok(response) => is_api_response_outcome(response, r),
            Err(e) => r == Err::<SentMessage, Error>(Error::Json(e)),
        },
{
    match decoded {
        Ok(response) => api_response_outcome(response),
        Err(e) => Err(Error::Json(e)),
    }
}

/// Where a bot sends its messages: the Bot API base URL, the bot token and
/// the chat used when a send names none.
#[derive(Clone, Debug, PartialEq, Eq)]
pub struct BotConfig {
    pub base_url: String,
    pub token: String,
    pub default_chat_id: String,
}

impl BotConfig {
    /// A configuration for the public Bot API at `https://api.telegram.org`.
    pub fn new(token: impl core::fmt::Display, default_chat_id: impl core::fmt::Display) -> (r: Self)
        ensures
            r.base_url@ == "https://api.telegram.org"@,
            to_string_from_display_ensures(&token, r.token),
            to_string_from_display_ensures(&default_chat_id, r.default_chat_id),
    {
        BotConfig {
            base_url: String::from_str("https://api.telegram.org"),
            token: token.to_string(),
            default_chat_id: default_chat_id.to_string(),
        }
    }

    /// A configuration for the public Bot API at `https://api.telegram.org`
    /// with the given token and default chat.
    pub fn from_parts(token: String, default_chat_id: String) -> (r: Self)
        ensures
            r.base_url@ == "https://api.telegram.org"@,
            r.token == token,
            r.default_chat_id == default_chat_id,
    {
        BotConfig { base_url: String::from_str("https://api.telegram.org"), token, default_chat_id }
    }

    /// This configuration with the given base URL.
    pub fn with_base_url_string(self, base_url: String) -> (r: Self)
        ensures
            r.base_url == base_url,
            r.token == self.token,
            r.default_chat_id == self.default_chat_id,
    {
        BotConfig { base_url, token: self.token, default_chat_id: self.default_chat_id }
    }

    /// This configuration with another base URL.
    pub fn with_base_url(self, base_url: impl core::fmt::Display) -> (r: Self)
        ensures
            to_string_from_display_ensures(&base_url, r.base_url),
            r.token == self.token,
            r.default_chat_id == self.default_chat_id,
    {
        BotConfig { base_url: base_url.to_string(), token: self.token, default_chat_id: self.default_chat_id }
    }

    /// The URL of Bot API method `method`: `{base_url}/bot{token}/{method}`.
    pub fn api_url(&self, method: &str) -> (r: String)
        ensures
            r@ == self.base_url@ + "/bot"@ + self.token@ + "/"@ + method@,
    {
        let mut out = String::new();
        push_str(&mut out, self.base_url.as_str());
        push_str(&mut out, "/bot");
        push_str(&mut out, self.token.as_str());
        push_str(&mut out, "/");
        push_str(&mut out, method);
        assert(out@ =~= self.base_url@ + "/bot"@ + self.token@ + "/"@ + method@);
        out
    }

    /// The chat a send goes to: the one the options name, else the default.
    pub fn chat_id<'a>(&'a self, options: &'a SendOptions) -> (r: &'a str)
        ensures
            match options.chat_id {
                Some(c) => r@ == c@,
                None => r@ == self.default_chat_id@,
            },
    {
        match &options.chat_id {
            Some(c) => c.as_str(),
            None => self.default_chat_id.as_str(),
        }
    }
}

} // verus!
