//! Laws of rendering, building and sending, stated against independent
//! readings of the produced text: what Telegram reads back from it, whether it
//! is well-formed for the parse mode, and how the fallback text relates to the
//! plain text.

use vstd::prelude::*;
use crate::limits::{kept_chars, lemma_truncated, truncation_marker, SEND_MESSAGE_TEXT_MAX_CHARS};
use crate::message::{
    budgeted, built_parse_mode, built_text, rendered_block, rendered_blocks, rendered_line,
    rendered_text, Block, ParseMode, TextStyle, Value, ValueBudget,
};
use crate::sanitize::{
    backslash_unescaped, escaped, html_unescaped, is_safe_html, is_safe_markdown_v2_code,
    is_safe_markdown_v2_text, lemma_html_escaping, lemma_markdown_v2_code_escaping,
    lemma_markdown_v2_text_escaping, Escaping,
};
use crate::send::{retries_plain, ParseFailureFallback};

verus! {

/// The text that Telegram shows for escaped text in a parse mode.
pub open spec fn read_back(mode: ParseMode, t: Seq<char>) -> Seq<char> {
    match mode {
        ParseMode::Plain => t,
        ParseMode::MarkdownV2 => backslash_unescaped(t),
        ParseMode::Html => html_unescaped(t),
    }
}

/// Whether `t` is well-formed ordinary text in a parse mode.
pub open spec fn is_safe_text(mode: ParseMode, t: Seq<char>) -> bool {
    match mode {
        ParseMode::Plain => true,
        ParseMode::MarkdownV2 => is_safe_markdown_v2_text(t),
        ParseMode::Html => is_safe_html(t),
    }
}

/// The text that Telegram shows for the content of a code entity.
pub open spec fn read_back_code(mode: ParseMode, t: Seq<char>) -> Seq<char> {
    match mode {
        ParseMode::Plain => t,
        ParseMode::MarkdownV2 => backslash_unescaped(t),
        ParseMode::Html => html_unescaped(t),
    }
}

/// Whether `t` is well-formed content of a code entity in a parse mode.
pub open spec fn is_safe_code(mode: ParseMode, t: Seq<char>) -> bool {
    match mode {
        ParseMode::Plain => true,
        ParseMode::MarkdownV2 => is_safe_markdown_v2_code(t),
        ParseMode::Html => is_safe_html(t),
    }
}

/// Dynamic text rendered for any parse mode is well-formed there and shows
/// exactly the input.
pub proof fn lemma_text_is_safe_and_shows_input(s: Seq<char>, mode: ParseMode)
    ensures
        is_safe_text(mode, rendered_text(s, mode)),
        read_back(mode, rendered_text(s, mode)) == s,
{
    match mode {
        ParseMode::Plain => {},
        ParseMode::MarkdownV2 => lemma_markdown_v2_text_escaping(s),
        ParseMode::Html => lemma_html_escaping(s),
    }
}

/// Text escaped for code in a parse mode is well-formed there and shows
/// exactly the input.
proof fn lemma_code_is_safe_and_shows_input(s: Seq<char>, mode: ParseMode)
    ensures
        is_safe_code(mode, code_escaped(s, mode)),
        read_back_code(mode, code_escaped(s, mode)) == s,
{
    match mode {
        ParseMode::Plain => {},
        ParseMode::MarkdownV2 => lemma_markdown_v2_code_escaping(s),
        ParseMode::Html => lemma_html_escaping(s),
    }
}

/// Code content escaped for a parse mode.
pub open spec fn code_escaped(s: Seq<char>, mode: ParseMode) -> Seq<char> {
    match mode {
        ParseMode::Plain => s,
        ParseMode::MarkdownV2 => escaped(Escaping::MarkdownV2Code, s),
        ParseMode::Html => escaped(Escaping::Html, s),
    }
}

/// A line is safe in every parse mode: a normal line is well-formed text that
/// shows exactly its input (so HTML lines escape `<`, `>`, `&`, and MarkdownV2
/// lines escape the reserved characters); a bold line wraps such text in the
/// mode's bold markers (`*…*`, `<b>…</b>`), and is the text itself in plain
/// messages.
pub proof fn lemma_lines_are_safe(s: Seq<char>, mode: ParseMode)
    ensures
        is_safe_text(mode, rendered_line(TextStyle::Normal, s, mode)),
        read_back(mode, rendered_line(TextStyle::Normal, s, mode)) == s,
        rendered_line(TextStyle::Bold, s, ParseMode::Plain) == s,
        ({
            let b = rendered_line(TextStyle::Bold, s, ParseMode::MarkdownV2);
            let inner = b.subrange(1, b.len() - 1);
            &&& b.len() >= 2
            &&& b[0] == '*' && b[b.len() - 1] == '*'
            &&& is_safe_markdown_v2_text(inner)
            &&& backslash_unescaped(inner) == s
        }),
        ({
            let b = rendered_line(TextStyle::Bold, s, ParseMode::Html);
            let inner = b.subrange(3, b.len() - 4);
            &&& b.len() >= 7
            &&& b.take(3) == seq!['<', 'b', '>']
            &&& b.skip(b.len() - 4) == seq!['<', '/', 'b', '>']
            &&& is_safe_html(inner)
            &&& html_unescaped(inner) == s
        }),
{
    lemma_text_is_safe_and_shows_input(s, mode);
    lemma_markdown_v2_text_escaping(s);
    lemma_html_escaping(s);
    let m = escaped(Escaping::MarkdownV2Text, s);
    let b = rendered_line(TextStyle::Bold, s, ParseMode::MarkdownV2);
    assert(b.subrange(1, b.len() - 1) =~= m);
    let h = escaped(Escaping::Html, s);
    let c = rendered_line(TextStyle::Bold, s, ParseMode::Html);
    assert(c.subrange(3, c.len() - 4) =~= h);
    assert(c.take(3) =~= seq!['<', 'b', '>']);
    assert(c.skip(c.len() - 4) =~= seq!['<', '/', 'b', '>']);
}

/// A key/value field in any parse mode: the key, well-formed and showing
/// exactly the key, then `": "`, then the value cut to its budget, which
/// shows exactly that cut value — whatever the parse mode, no value is shown
/// beyond its budget.
pub proof fn lemma_key_value_field(key: String, value: String, budget: ValueBudget, mode: ParseMode)
    ensures
        ({
            let r = rendered_block(
                Block::KeyValue { key, value: Value::Text { value, budget } },
                mode,
            );
            let k = rendered_text(key@, mode);
            &&& r.take(k.len() as int) == k
            &&& is_safe_text(mode, k)
            &&& read_back(mode, k) == key@
            &&& r.subrange(k.len() as int, k.len() as int + 2) == seq![':', ' ']
            &&& is_safe_text(mode, r.skip(k.len() as int + 2))
            &&& read_back(mode, r.skip(k.len() as int + 2)) == budgeted(budget, value@)
        }),
{
    let r = rendered_block(Block::KeyValue { key, value: Value::Text { value, budget } }, mode);
    let k = rendered_text(key@, mode);
    let v = rendered_text(budgeted(budget, value@), mode);
    assert(r =~= k + seq![':', ' '] + v);
    assert(r.take(k.len() as int) =~= k);
    assert(r.subrange(k.len() as int, k.len() as int + 2) =~= seq![':', ' ']);
    assert(r.skip(k.len() as int + 2) =~= v);
    lemma_text_is_safe_and_shows_input(key@, mode);
    lemma_text_is_safe_and_shows_input(budgeted(budget, value@), mode);
}

/// An error / code block field in any parse mode: the key, escaped exactly as
/// a key/value key (well-formed, showing exactly the key), then `":\n"`, then
/// a code block whose content is well-formed code showing exactly the value
/// cut to its budget.
pub proof fn lemma_multiline_field(key: String, value: String, budget: ValueBudget, mode: ParseMode)
    ensures
        ({
            let r = rendered_block(Block::MultilineValue { key, value, budget }, mode);
            let k = rendered_text(key@, mode);
            let open: Seq<char> = match mode {
                ParseMode::Plain => Seq::empty(),
                ParseMode::MarkdownV2 => seq!['`', '`', '`', '\n'],
                ParseMode::Html => seq!['<', 'p', 'r', 'e', '>'],
            };
            let close: Seq<char> = match mode {
                ParseMode::Plain => Seq::empty(),
                ParseMode::MarkdownV2 => seq!['\n', '`', '`', '`'],
                ParseMode::Html => seq!['<', '/', 'p', 'r', 'e', '>'],
            };
            let body_start = k.len() as int + 2 + open.len() as int;
            let body = r.subrange(body_start as int, r.len() as int - close.len() as int);
            &&& r.take(k.len() as int) == k
            &&& is_safe_text(mode, k)
            &&& read_back(mode, k) == key@
            &&& r.subrange(k.len() as int, k.len() as int + 2) == seq![':', '\n']
            &&& r.subrange(k.len() as int + 2, body_start as int) == open
            &&& r.skip(r.len() as int - close.len() as int) == close
            &&& is_safe_code(mode, body)
            &&& read_back_code(mode, body) == budgeted(budget, value@)
        }),
{
    let r = rendered_block(Block::MultilineValue { key, value, budget }, mode);
    let k = rendered_text(key@, mode);
    let c = code_escaped(budgeted(budget, value@), mode);
    lemma_text_is_safe_and_shows_input(key@, mode);
    lemma_code_is_safe_and_shows_input(budgeted(budget, value@), mode);
    match mode {
        ParseMode::Plain => {
            assert(r =~= k + seq![':', '\n'] + c);
            assert(r.take(k.len() as int) =~= k);
            assert(r.subrange(k.len() as int, k.len() as int + 2) =~= seq![':', '\n']);
            assert(r.subrange(k.len() as int + 2, k.len() as int + 2) =~= Seq::<char>::empty());
            assert(r.skip(r.len() as int) =~= Seq::<char>::empty());
            assert(r.subrange(k.len() as int + 2, r.len() as int) =~= c);
        },
        ParseMode::MarkdownV2 => {
            let open = seq!['`', '`', '`', '\n'];
            let close = seq!['\n', '`', '`', '`'];
            assert(r =~= k + seq![':', '\n'] + open + c + close);
            assert(r.take(k.len() as int) =~= k);
            assert(r.subrange(k.len() as int, k.len() as int + 2) =~= seq![':', '\n']);
            assert(r.subrange(k.len() as int + 2, k.len() as int + 6) =~= open);
            assert(r.skip(r.len() - 4) =~= close);
            assert(r.subrange(k.len() as int + 6, r.len() - 4) =~= c);
        },
        ParseMode::Html => {
            let open = seq!['<', 'p', 'r', 'e', '>'];
            let close = seq!['<', '/', 'p', 'r', 'e', '>'];
            assert(r =~= k + seq![':', '\n'] + open + c + close);
            assert(r.take(k.len() as int) =~= k);
            assert(r.subrange(k.len() as int, k.len() as int + 2) =~= seq![':', '\n']);
            assert(r.subrange(k.len() as int + 2, k.len() as int + 7) =~= open);
            assert(r.skip(r.len() - 6) =~= close);
            assert(r.subrange(k.len() as int + 7, r.len() - 6) =~= c);
        },
    }
}

/// When the rendering in the builder's mode is over the limit, the message
/// is sent as plain text and its text comes from the plain rendering, never
/// from a formatted one: the whole plain rendering when that fits, else its
/// first `4096 - 12` characters followed by the truncation marker, 4096
/// characters in all.
pub proof fn lemma_build_fallback_is_plain_text(mode: ParseMode, blocks: Seq<Block>)
    ensures
        rendered_blocks(blocks, mode).len() > SEND_MESSAGE_TEXT_MAX_CHARS ==> {
            let plain = rendered_blocks(blocks, ParseMode::Plain);
            let t = built_text(mode, blocks);
            let k = kept_chars(SEND_MESSAGE_TEXT_MAX_CHARS as nat) as int;
            &&& built_parse_mode(mode, blocks) == ParseMode::Plain
            &&& plain.len() <= SEND_MESSAGE_TEXT_MAX_CHARS ==> t == plain
            &&& plain.len() > SEND_MESSAGE_TEXT_MAX_CHARS ==> {
                &&& t.len() == SEND_MESSAGE_TEXT_MAX_CHARS
                &&& t.take(k) == plain.take(k)
                &&& t.skip(k) == truncation_marker()
            }
        },
{
    lemma_truncated(rendered_blocks(blocks, ParseMode::Plain), SEND_MESSAGE_TEXT_MAX_CHARS as nat);
}

/// A one-line message whose formatted rendering is over the limit shows the
/// line's own characters, with no formatting escapes: all of them when they
/// fit, else the first `4096 - 12` of them and the truncation marker.
pub proof fn lemma_build_fallback_of_a_line(mode: ParseMode, text: String)
    ensures
        ({
            let blocks = seq![Block::Line(TextStyle::Normal, text)];
            let t = built_text(mode, blocks);
            let k = kept_chars(SEND_MESSAGE_TEXT_MAX_CHARS as nat) as int;
            rendered_blocks(blocks, mode).len() > SEND_MESSAGE_TEXT_MAX_CHARS ==> {
                &&& built_parse_mode(mode, blocks) == ParseMode::Plain
                &&& text@.len() <= SEND_MESSAGE_TEXT_MAX_CHARS ==> t == text@
                &&& text@.len() > SEND_MESSAGE_TEXT_MAX_CHARS ==> t == text@.take(k)
                    + truncation_marker()
            }
        }),
{
    let blocks = seq![Block::Line(TextStyle::Normal, text)];
    lemma_build_fallback_is_plain_text(mode, blocks);
    assert(rendered_blocks(blocks, ParseMode::Plain) == text@);
    let t = built_text(mode, blocks);
    let k = kept_chars(SEND_MESSAGE_TEXT_MAX_CHARS as nat) as int;
    if rendered_blocks(blocks, mode).len() > SEND_MESSAGE_TEXT_MAX_CHARS
        && text@.len() > SEND_MESSAGE_TEXT_MAX_CHARS {
        assert(t =~= t.take(k) + t.skip(k));
        assert(t =~= text@.take(k) + truncation_marker());
    }
}

/// A failed send of any formatted message — MarkdownV2 and HTML alike — is
/// retried as plain text when the options ask for it; a plain message, a
/// success, or options without the fallback are never retried.
pub proof fn lemma_formatted_failures_are_retried(
    mode: ParseMode,
    fallback: ParseFailureFallback,
    failed: bool,
)
    ensures
        retries_plain(ParseMode::MarkdownV2, ParseFailureFallback::PlainText, true),
        retries_plain(ParseMode::Html, ParseFailureFallback::PlainText, true),
        !retries_plain(ParseMode::Plain, fallback, failed),
        !retries_plain(mode, ParseFailureFallback::Disabled, failed),
        !retries_plain(mode, fallback, false),
{
}

} // verus!
