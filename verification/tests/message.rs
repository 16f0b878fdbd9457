use telegram::text::char_count;
use telegram::{
    InlineKeyboardButton, MessageBuilder, ParseMode, SendMessageRequest, SendOptions,
    TelegramMessage, ValueBudget, SEND_MESSAGE_TEXT_MAX_CHARS,
};

#[test]
fn plain_builder_renders_key_values_and_error() {
    let message = MessageBuilder::plain()
        .line("cielago alert: relay submissions disabled")
        .kv("label", "rbx-prod-mainnet")
        .error("error", "db\nunavailable")
        .build();

    assert_eq!(message.parse_mode(), ParseMode::Plain);
    assert_eq!(
        message.text(),
        "cielago alert: relay submissions disabled\nlabel: rbx-prod-mainnet\nerror:\ndb\nunavailable"
    );
}

#[test]
fn markdown_builder_escapes_and_wraps_code() {
    let message = MessageBuilder::markdown_v2()
        .bold_line("builder demoted")
        .kv_code("slot", 12345)
        .error("error", "bad `root` \\ upstream")
        .build();

    assert_eq!(message.parse_mode(), ParseMode::MarkdownV2);
    assert_eq!(
        message.text(),
        "*builder demoted*\nslot: `12345`\nerror:\n```\nbad \\`root\\` \\\\ upstream\n```"
    );
}

#[test]
fn html_builder_escapes_and_wraps_code() {
    let message = MessageBuilder::html()
        .bold_line("builder <demoted>")
        .kv_code("builder_id", "beaver <prod>")
        .error("error", "invalid <root> & upstream")
        .build();

    assert_eq!(message.parse_mode(), ParseMode::Html);
    assert_eq!(
        message.text(),
        "<b>builder &lt;demoted&gt;</b>\nbuilder_id: <code>beaver &lt;prod&gt;</code>\nerror:\n<pre>invalid &lt;root&gt; &amp; upstream</pre>"
    );
}

#[test]
fn long_plain_message_is_truncated_to_limit() {
    let message = TelegramMessage::plain("x".repeat(SEND_MESSAGE_TEXT_MAX_CHARS + 10));

    assert_eq!(char_count(message.text()), SEND_MESSAGE_TEXT_MAX_CHARS);
    assert!(message.text().ends_with("\n[truncated]"));
}

#[test]
fn long_formatted_builder_falls_back_to_truncated_plain_text() {
    let message = MessageBuilder::markdown_v2()
        .line("x_".repeat(SEND_MESSAGE_TEXT_MAX_CHARS))
        .build();

    assert_eq!(message.parse_mode(), ParseMode::Plain);
    assert_eq!(char_count(message.text()), SEND_MESSAGE_TEXT_MAX_CHARS);
    assert!(message.text().ends_with("\n[truncated]"));
}

#[test]
fn default_value_budget_preserves_later_fields() {
    let message = MessageBuilder::plain()
        .error("error", "x".repeat(SEND_MESSAGE_TEXT_MAX_CHARS))
        .line("relay submissions disabled until process restart")
        .build();

    assert_eq!(message.parse_mode(), ParseMode::Plain);
    assert!(message.text().contains("\n[truncated]"));
    assert!(message
        .text()
        .contains("relay submissions disabled until process restart"));
    assert!(char_count(message.text()) < SEND_MESSAGE_TEXT_MAX_CHARS);
}

#[test]
fn default_key_value_budget_preserves_later_key_values() {
    let message = MessageBuilder::plain()
        .kv("large", "x".repeat(SEND_MESSAGE_TEXT_MAX_CHARS))
        .kv("small", "high-signal")
        .build();

    assert!(message.text().contains("large: "));
    assert!(message.text().contains("\n[truncated]"));
    assert!(message.text().contains("small: high-signal"));
}

#[test]
fn custom_value_budget_is_honored() {
    let message = MessageBuilder::plain()
        .kv_with_budget("payload", "abcdef", ValueBudget::Chars(16))
        .build();

    assert_eq!(message.text(), "payload: abcdef");

    let message = MessageBuilder::plain()
        .kv_with_budget("payload", "abcdefghijklmnopqrstu", ValueBudget::Chars(16))
        .build();

    assert_eq!(message.text(), "payload: abcd\n[truncated]");
}

#[test]
fn unlimited_value_budget_uses_whole_message_truncation() {
    let message = MessageBuilder::plain()
        .error_with_budget(
            "error",
            "x".repeat(SEND_MESSAGE_TEXT_MAX_CHARS * 2),
            ValueBudget::Unlimited,
        )
        .line("relay submissions disabled until process restart")
        .build();

    assert_eq!(char_count(message.text()), SEND_MESSAGE_TEXT_MAX_CHARS);
    assert!(message.text().ends_with("\n[truncated]"));
    assert!(!message
        .text()
        .contains("relay submissions disabled until process restart"));
}

#[test]
fn budgeted_markdown_code_block_keeps_complete_delimiters() {
    let message = MessageBuilder::markdown_v2()
        .error("error", format!("`{}", "x".repeat(SEND_MESSAGE_TEXT_MAX_CHARS)))
        .line("tail")
        .build();

    assert_eq!(message.parse_mode(), ParseMode::MarkdownV2);
    assert!(message.text().contains("```\n\\`"));
    assert!(message.text().contains("\n[truncated]\n```\ntail"));
}

#[test]
fn try_build_untruncated_returns_error_for_long_message() {
    let error = MessageBuilder::plain()
        .line("x".repeat(SEND_MESSAGE_TEXT_MAX_CHARS + 1))
        .try_build_untruncated()
        .unwrap_err();

    assert_eq!(
        error.to_string(),
        "telegram message is 4097 chars, limit is 4096"
    );
}

#[test]
fn callback_data_is_limited_to_sixty_four_bytes() {
    assert!(InlineKeyboardButton::callback("ok", "x".repeat(64)).is_ok());
    assert!(InlineKeyboardButton::callback("bad", "x".repeat(65)).is_err());
}

#[test]
fn payload_contains_parse_mode_when_needed() {
    let message = MessageBuilder::markdown_v2().line("hello").build();
    let options = SendOptions::default();
    let request = SendMessageRequest::new("-100", &message, &options);

    assert_eq!(request.chat_id, "-100");
    assert_eq!(request.text, "hello");
    assert_eq!(request.parse_mode, Some("MarkdownV2"));
}
