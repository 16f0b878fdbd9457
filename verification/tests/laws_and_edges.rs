use telegram::error::Error;
use telegram::limits::{truncate_to_char_limit, truncate_to_limit, DEFAULT_VALUE_TEXT_MAX_CHARS};
use telegram::sanitize::{escape, html_text, markdown_v2_text, plain_text, Escaping};
use telegram::send::{
    after_attempt, api_response_outcome, decoded_outcome, fallback_options, http_status_outcome,
    should_retry_plain,
};
use telegram::text::{char_count, chars_of};
use telegram::{
    fallback_plain_message, ApiResponse, BotConfig, InlineKeyboardButton, InlineKeyboardMarkup,
    MessageBuilder, ParseFailureFallback, ParseMode, SendMessageRequest, SendOptions, SendStep,
    SentMessage, TelegramMessage, ValueBudget, CALLBACK_DATA_MAX_BYTES,
    SEND_MESSAGE_TEXT_MAX_CHARS,
};

#[test]
fn parse_mode_parameters() {
    assert_eq!(ParseMode::Plain.as_telegram_parse_mode(), None);
    assert_eq!(ParseMode::MarkdownV2.as_telegram_parse_mode(), Some("MarkdownV2"));
    assert_eq!(ParseMode::Html.as_telegram_parse_mode(), Some("HTML"));
    let message = MessageBuilder::html().line("x").build();
    assert_eq!(message.parse_mode_parameter(), Some("HTML"));
}

#[test]
fn markdown_text_escapes_every_reserved_character() {
    assert_eq!(
        markdown_v2_text("_*[]()~`>#+-=|{}.!\\a"),
        "\\_\\*\\[\\]\\(\\)\\~\\`\\>\\#\\+\\-\\=\\|\\{\\}\\.\\!\\\\a"
    );
    assert_eq!(escape(Escaping::MarkdownV2Code, "a_`\\"), "a_\\`\\\\");
}

#[test]
fn html_text_escapes_entities() {
    assert_eq!(html_text("a<b>&c\"d"), "a&lt;b&gt;&amp;c\"d");
    assert_eq!(plain_text("a<b>_*\n"), "a<b>_*\n");
}

#[test]
fn markdown_key_value_escapes_key_and_value() {
    let message = MessageBuilder::markdown_v2()
        .kv("builder_id", "beaver_build[prod]")
        .build();
    assert_eq!(message.text(), "builder\\_id: beaver\\_build\\[prod\\]");
}

#[test]
fn html_and_plain_key_value_and_code() {
    let message = MessageBuilder::html().kv("a&b", "<x>").code_block("k", "v").build();
    assert_eq!(message.text(), "a&amp;b: &lt;x&gt;\nk:\n<pre>v</pre>");
    let message = MessageBuilder::plain()
        .bold_line("bold")
        .kv_code("k", "`v`")
        .code_block_with_budget("c", "abcdefghijklmnop", ValueBudget::Chars(14))
        .build();
    assert_eq!(message.text(), "bold\nk: `v`\nc:\nab\n[truncated]");
}

#[test]
fn truncation_edges() {
    assert_eq!(truncate_to_char_limit("abc", 3), "abc");
    assert_eq!(truncate_to_char_limit("abcd", 3), "\n[t");
    assert_eq!(truncate_to_char_limit("abcd", 0), "");
    assert_eq!(truncate_to_char_limit("abcdefghijklm", 12), "\n[truncated]");
    assert_eq!(truncate_to_char_limit("abcdefghijklmn", 13), "a\n[truncated]");
    // multi-byte characters are counted as characters
    assert_eq!(truncate_to_char_limit("ééééé", 5), "ééééé");
    assert_eq!(char_count("ééé"), 3);
    assert_eq!(chars_of("aé"), vec!['a', 'é']);
    assert_eq!(DEFAULT_VALUE_TEXT_MAX_CHARS, 1024);
}

#[test]
fn truncation_is_idempotent() {
    let long = "y".repeat(SEND_MESSAGE_TEXT_MAX_CHARS + 100);
    let once = truncate_to_limit(&long);
    let twice = truncate_to_limit(&once);
    assert_eq!(once, twice);
    assert_eq!(char_count(&once), SEND_MESSAGE_TEXT_MAX_CHARS);
    assert!(once.starts_with(&"y".repeat(SEND_MESSAGE_TEXT_MAX_CHARS - 12)));
}

#[test]
fn value_budgets() {
    assert_eq!(ValueBudget::Unlimited.apply("abc"), "abc");
    assert_eq!(ValueBudget::Chars(2).apply("abc"), "\n[");
    let long = "z".repeat(5000);
    assert_eq!(char_count(&ValueBudget::Default.apply(&long)), 1024);
}

#[test]
fn fitting_message_keeps_format_and_untruncated_agrees() {
    let builder = MessageBuilder::markdown_v2().bold_line("a.b").kv_code("k", 1);
    let built = builder.clone().build();
    let untruncated = builder.try_build_untruncated().unwrap();
    assert_eq!(built, untruncated);
    assert_eq!(built.parse_mode(), ParseMode::MarkdownV2);
    assert_eq!(built.text(), "*a\\.b*\nk: `1`");
}

#[test]
fn message_at_exact_limit_is_kept() {
    let text = "x".repeat(SEND_MESSAGE_TEXT_MAX_CHARS);
    let message = MessageBuilder::plain().line(&text).try_build_untruncated().unwrap();
    assert_eq!(message.text(), text);
    let message = TelegramMessage::from_text(ParseMode::Html, text.clone());
    assert_eq!(message.text(), text);
    assert_eq!(message.parse_mode(), ParseMode::Html);
}

#[test]
fn every_built_message_is_within_limit() {
    let message = MessageBuilder::html()
        .error_with_budget("e", "<".repeat(10_000), ValueBudget::Unlimited)
        .build();
    assert_eq!(message.parse_mode(), ParseMode::Plain);
    assert_eq!(char_count(message.text()), SEND_MESSAGE_TEXT_MAX_CHARS);
}

#[test]
fn empty_builder_renders_empty_text() {
    let message = MessageBuilder::new(ParseMode::Html).build();
    assert_eq!(message.text(), "");
    assert_eq!(message.parse_mode(), ParseMode::Html);
}

#[test]
fn error_descriptions() {
    assert_eq!(
        Error::CallbackDataTooLong { bytes: 65 }.to_string(),
        "telegram callback data is 65 bytes, limit is 64"
    );
    assert_eq!(
        Error::MessageTooLong { chars: 0, limit: 10 }.to_string(),
        "telegram message is 0 chars, limit is 10"
    );
    assert_eq!(Error::Http("down".to_string()).to_string(), "telegram http error: down");
    assert_eq!(Error::Telegram("bad".to_string()).to_string(), "telegram api error: bad");
    assert_eq!(Error::Json("eof".to_string()).to_string(), "telegram json error: eof");
}

#[test]
fn callback_data_limit_counts_bytes() {
    assert_eq!(CALLBACK_DATA_MAX_BYTES, 64);
    assert!(InlineKeyboardButton::callback("ok", "é".repeat(32)).is_ok());
    assert_eq!(
        InlineKeyboardButton::callback("bad", "é".repeat(33)),
        Err(Error::CallbackDataTooLong { bytes: 66 })
    );
    let button = InlineKeyboardButton::callback("ok", "data").unwrap();
    assert_eq!(button.text(), "ok");
    assert_eq!(button.callback_data(), Some("data"));
    assert_eq!(button.link_url(), None);
}

#[test]
fn url_button_and_single_markup() {
    let button = InlineKeyboardButton::url("open", "https://example.org");
    assert_eq!(button.link_url(), Some("https://example.org"));
    assert_eq!(button.callback_data(), None);
    let markup = InlineKeyboardMarkup::single(button.clone());
    assert_eq!(markup.inline_keyboard, vec![vec![button]]);
}

#[test]
fn default_send_options() {
    let options = SendOptions::default();
    assert_eq!(options.chat_id, None);
    assert!(options.disable_web_page_preview);
    assert_eq!(options.message_thread_id, None);
    assert_eq!(options.reply_markup, None);
    assert_eq!(options.parse_failure_fallback, ParseFailureFallback::PlainText);
}

#[test]
fn request_carries_options() {
    let message = MessageBuilder::plain().line("hi").build();
    let markup = InlineKeyboardMarkup::single(InlineKeyboardButton::url("a", "b"));
    let options = SendOptions {
        chat_id: None,
        disable_web_page_preview: false,
        message_thread_id: Some(7),
        reply_markup: Some(markup.clone()),
        parse_failure_fallback: ParseFailureFallback::Disabled,
    };
    let request = SendMessageRequest::new("c", &message, &options);
    assert_eq!(request.parse_mode, None);
    assert!(!request.disable_web_page_preview);
    assert_eq!(request.message_thread_id, Some(7));
    assert_eq!(request.reply_markup, Some(&markup));
}

#[test]
fn bot_config_url_and_chat() {
    let config = BotConfig::new("TOKEN", "-100123");
    assert_eq!(config.api_url("sendMessage"), "https://api.telegram.org/botTOKEN/sendMessage");
    let config = config.with_base_url("http://localhost:8080");
    assert_eq!(config.api_url("getMe"), "http://localhost:8080/botTOKEN/getMe");
    let mut options = SendOptions::default();
    assert_eq!(config.chat_id(&options), "-100123");
    options.chat_id = Some("42".to_string());
    assert_eq!(config.chat_id(&options), "42");
}

#[test]
fn retry_decision() {
    let formatted = MessageBuilder::markdown_v2().line("a_b").build();
    let plain = MessageBuilder::plain().line("a_b").build();
    let failed: Result<SentMessage, Error> = Err(Error::Telegram("can't parse".to_string()));
    let sent: Result<SentMessage, Error> = Ok(SentMessage { message_id: 1 });
    let options = SendOptions::default();
    assert!(should_retry_plain(&formatted, &options, &failed));
    assert!(!should_retry_plain(&formatted, &options, &sent));
    assert!(!should_retry_plain(&plain, &options, &failed));
    let no_fallback = fallback_options(options.clone());
    assert_eq!(no_fallback.parse_failure_fallback, ParseFailureFallback::Disabled);
    assert!(!should_retry_plain(&formatted, &no_fallback, &failed));
}

#[test]
fn send_retries_at_most_once() {
    let formatted = MessageBuilder::markdown_v2().line("a_b").build();
    let failed: Result<SentMessage, Error> = Err(Error::Telegram("can't parse".to_string()));
    match after_attempt(&formatted, SendOptions::default(), failed.clone()) {
        SendStep::RetryPlain { message, options } => {
            assert_eq!(message.parse_mode(), ParseMode::Plain);
            assert_eq!(message.text(), "a\\_b");
            assert_eq!(options.parse_failure_fallback, ParseFailureFallback::Disabled);
            match after_attempt(&message, options, failed.clone()) {
                SendStep::Finish(result) => assert_eq!(result, failed),
                SendStep::RetryPlain { .. } => panic!("retried twice"),
            }
        }
        SendStep::Finish(_) => panic!("no retry"),
    }
    let sent: Result<SentMessage, Error> = Ok(SentMessage { message_id: 9 });
    match after_attempt(&formatted, SendOptions::default(), sent) {
        SendStep::Finish(result) => assert_eq!(result, Ok(SentMessage { message_id: 9 })),
        SendStep::RetryPlain { .. } => panic!("retried a success"),
    }
}

#[test]
fn fallback_message_keeps_text() {
    let formatted = MessageBuilder::html().bold_line("<b>").build();
    let fallback = fallback_plain_message(&formatted);
    assert_eq!(fallback.parse_mode(), ParseMode::Plain);
    assert_eq!(fallback.text(), formatted.text());
}

#[test]
fn reply_outcomes() {
    assert_eq!(
        http_status_outcome(false, "Bad Gateway".to_string()),
        Err(Error::Telegram("Bad Gateway".to_string()))
    );
    assert_eq!(http_status_outcome(true, "{}".to_string()), Ok("{}".to_string()));
    let ok = ApiResponse { ok: true, result: Some(SentMessage { message_id: 5 }), description: None };
    assert_eq!(api_response_outcome(ok), Ok(SentMessage { message_id: 5 }));
    let empty: ApiResponse<SentMessage> = ApiResponse { ok: true, result: None, description: None };
    assert_eq!(
        api_response_outcome(empty),
        Err(Error::Telegram("sendMessage returned no result".to_string()))
    );
    let refused: ApiResponse<SentMessage> =
        ApiResponse { ok: false, result: None, description: Some("chat not found".to_string()) };
    assert_eq!(api_response_outcome(refused), Err(Error::Telegram("chat not found".to_string())));
    let unknown: ApiResponse<SentMessage> = ApiResponse { ok: false, result: None, description: None };
    assert_eq!(api_response_outcome(unknown), Err(Error::Telegram("unknown error".to_string())));
    assert_eq!(decoded_outcome(Err("eof".to_string())), Err(Error::Json("eof".to_string())));
}

#[test]
fn str_builder_methods() {
    let message = MessageBuilder::markdown_v2()
        .bold_line_str("a.b")
        .line_str("c")
        .kv_str_with_budget("k_1", "v", ValueBudget::Default)
        .kv_code_str_with_budget("k", "`x`", ValueBudget::Unlimited)
        .error_str_with_budget("e", "abcdefghijklmnop", ValueBudget::Chars(14))
        .build();
    assert_eq!(
        message.text(),
        "*a\\.b*\nc\nk\\_1: v\nk: `\\`x\\``\ne:\n```\nab\n[truncated]\n```"
    );
}

#[test]
fn error_kinds() {
    assert_eq!(Error::CallbackDataTooLong { bytes: 1 }.kind(), "callback_data_too_long");
    assert_eq!(Error::MessageTooLong { chars: 1, limit: 0 }.kind(), "message_too_long");
    assert_eq!(Error::Http(String::new()).kind(), "http");
    assert_eq!(Error::Telegram(String::new()).kind(), "telegram");
    assert_eq!(Error::Json(String::new()).kind(), "json");
}

#[test]
fn bounded_markdown_message_is_never_cut() {
    let value = "_".repeat(1500);
    let message = MessageBuilder::markdown_v2()
        .kv_with_budget("a", &value, ValueBudget::Unlimited)
        .kv_with_budget("b", &value, ValueBudget::Unlimited)
        .line("later field")
        .build();
    // escaping doubles the values past the limit, so the message goes out as
    // plain text, but nothing is cut
    assert_eq!(message.parse_mode(), ParseMode::Plain);
    assert_eq!(message.text(), format!("a: {value}\nb: {value}\nlater field"));
}

#[test]
fn str_constructors() {
    let message = TelegramMessage::plain_str("hello");
    assert_eq!(message.text(), "hello");
    assert_eq!(message.parse_mode(), ParseMode::Plain);
    let long = "q".repeat(SEND_MESSAGE_TEXT_MAX_CHARS + 1);
    assert_eq!(char_count(TelegramMessage::plain_str(&long).text()), SEND_MESSAGE_TEXT_MAX_CHARS);

    let button = InlineKeyboardButton::url_str("open", "https://example.org");
    assert_eq!(button.text(), "open");
    assert_eq!(button.link_url(), Some("https://example.org"));
    let button = InlineKeyboardButton::callback_str("ok", &"x".repeat(64)).unwrap();
    assert_eq!(button.callback_data(), Some("x".repeat(64).as_str()));
    assert_eq!(
        InlineKeyboardButton::callback_str("bad", &"x".repeat(65)),
        Err(Error::CallbackDataTooLong { bytes: 65 })
    );

    let config = BotConfig::from_parts("T".to_string(), "-1".to_string());
    assert_eq!(config.token, "T");
    assert_eq!(config.default_chat_id, "-1");
    assert_eq!(config.api_url("sendMessage"), "https://api.telegram.org/botT/sendMessage");
    let config = config.with_base_url_string("http://h".to_string());
    assert_eq!(config.api_url("m"), "http://h/botT/m");
}

#[test]
fn builder_clone_is_equal() {
    let builder = MessageBuilder::html().kv("a", "b").error("e", "<x>");
    let copy = builder.clone();
    assert_eq!(copy, builder);
    assert_eq!(copy.build(), builder.build());
}

#[test]
fn outside_errors_convert() {
    let json = serde_json::from_str::<serde_json::Value>("{").unwrap_err();
    let text = json.to_string();
    assert_eq!(Error::from(json), Error::Json(text));
    let io = std::io::Error::new(std::io::ErrorKind::Other, "broken pipe");
    assert_eq!(Error::from(io), Error::Http("broken pipe".to_string()));
}
