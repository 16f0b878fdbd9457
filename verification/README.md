# telegram

Telegram Bot API `sendMessage` message building: safe message builders for
operational alerts, with machine-checked contracts and proofs.

The library (`src/`) builds operational messages — lines, key/value blocks and
alerts with a large error or code field — in plain text, MarkdownV2 or HTML,
escapes dynamic text by Telegram's formatting rules, and applies the
`sendMessage.text` limit (4096 characters) to the whole message. The escaping
is the library's own (`src/sanitize.rs`), written from Telegram's documented
formatting rules and proved against their statement, rather than that of the
`telegram_sanitize` crate. The library's contracts state the rendered text exactly in terms of the blocks' text. Builder methods
that take `impl Display` store the argument's `Display` rendering, which Verus
knows only as a relation; the `_str` variants (`line_str`, `kv_str_with_budget`,
...) take string slices and tie the stored text to the argument. Among the
proved properties:

- every finished message is at most 4096 characters long (a type invariant);
- a message that does not fit in its parse mode falls back to truncated plain text;
- truncation keeps the start of the text and ends with `\n[truncated]`;
- each value stays within its budget, so one huge value cannot hide later fields,
  and a message whose bound fits the limit is never cut, in any parse mode;
- MarkdownV2 and HTML escaping produce well-formed text that reads back as the input;
- a send whose formatting Telegram refuses is retried as plain text at most once;
- callback data of inline keyboard buttons never exceeds 64 bytes.

`app/` holds the HTTP clients: `TelegramBot` over `reqwest` and
`blocking::BlockingTelegramBot` over `ureq`. They perform the calls, encode and
decode JSON with serde and log with `tracing`; what to send, how to read the
reply and whether to retry are decided by the library.

Layout of `src/`: `text` (characters), `sanitize` (escaping), `limits`
(limits and truncation), `message` (model, rendering, builder), `keyboard`
(inline keyboards), `send` (requests, replies, retry), `error`.
