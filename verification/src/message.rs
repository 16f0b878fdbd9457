//! Message model: parse modes, value budgets, message blocks, their rendering
//! for each parse mode, the message builder, and finished messages.

use vstd::prelude::*;
use vstd::string::to_string_from_display_ensures;
use crate::error::Error;
use crate::limits::{
    truncated, truncate_to_char_limit, truncate_to_limit, lemma_truncated,
    DEFAULT_VALUE_TEXT_MAX_CHARS, SEND_MESSAGE_TEXT_MAX_CHARS,
};
use crate::sanitize::{escaped, push_escaped, Escaping, lemma_plain_is_identity};
use crate::text::{char_count, push_char, push_str};

verus! {

broadcast use vstd::string::group_string_axioms;

/// Per-field budget for dynamic key/value and multiline values.
///
/// The default budget keeps one very large value from pushing later fields out
/// of the message. `Unlimited` is intended for values the caller already
/// normalized or intentionally allows to dominate whole-message truncation.
#[derive(Clone, Copy, Debug, PartialEq, Eq, Structural)]
pub enum ValueBudget {
    /// Use the crate's conservative per-value budget.
    Default,
    /// Limit this value to the given number of raw text characters.
    Chars(usize),
    /// Leave this value unbounded and rely only on whole-message truncation.
    Unlimited,
}

/// How Telegram interprets the message text.
#[derive(Clone, Copy, Debug, PartialEq, Eq, Structural)]
pub enum ParseMode {
    Plain,
    MarkdownV2,
    Html,
}

/// Style of a whole line.
#[derive(Clone, Copy, Debug, PartialEq, Eq, Structural)]
pub enum TextStyle {
    Normal,
    Bold,
}

/// The value half of a key/value block.
#[derive(Debug, PartialEq, Eq)]
pub enum Value {
    /// Rendered as ordinary text.
    Text { value: String, budget: ValueBudget },
    /// Rendered as inline code.
    InlineCode { value: String, budget: ValueBudget },
}

/// One line-oriented piece of a message.
#[allow(inconsistent_fields)]
#[derive(Debug, PartialEq, Eq)]
pub enum Block {
    /// A line of text.
    Line(TextStyle, String),
    /// `key: value` on one line.
    KeyValue { key: String, value: Value },
    /// `key:` followed by the value as a code block on the next lines.
    MultilineValue { key: String, value: String, budget: ValueBudget },
}

/// The Bot API `parse_mode` parameter of a parse mode.
pub open spec fn parse_mode_name(mode: ParseMode) -> Option<Seq<char>> {
    match mode {
        ParseMode::Plain => None,
        ParseMode::MarkdownV2 => Some(seq!['M', 'a', 'r', 'k', 'd', 'o', 'w', 'n', 'V', '2']),
        ParseMode::Html => Some(seq!['H', 'T', 'M', 'L']),
    }
}

impl ParseMode {
    /// The `parse_mode` parameter that Telegram expects, if any.
    pub fn as_telegram_parse_mode(self) -> (r: Option<&'static str>)
        ensures
            match parse_mode_name(self) {
                None => r is None,
                Some(name) => r is Some && r->0@ == name,
            },
    {
        match self {
            ParseMode::Plain => None,
            ParseMode::MarkdownV2 => {
                proof {
                    reveal_strlit("MarkdownV2");
                }
                Some("MarkdownV2")
            },
            ParseMode::Html => {
                proof {
                    reveal_strlit("HTML");
                }
                Some("HTML")
            },
        }
    }
}

/// Dynamic text escaped for a parse mode.
pub open spec fn rendered_text(s: Seq<char>, mode: ParseMode) -> Seq<char> {
    match mode {
        ParseMode::Plain => s,
        ParseMode::MarkdownV2 => escaped(Escaping::MarkdownV2Text, s),
        ParseMode::Html => escaped(Escaping::Html, s),
    }
}

/// A value cut to its budget.
pub open spec fn budgeted(budget: ValueBudget, s: Seq<char>) -> Seq<char> {
    match budget {
        ValueBudget::Default => truncated(s, DEFAULT_VALUE_TEXT_MAX_CHARS as nat),
        ValueBudget::Chars(limit) => truncated(s, limit as nat),
        ValueBudget::Unlimited => s,
    }
}

/// A line in a given style.
pub open spec fn rendered_line(style: TextStyle, s: Seq<char>, mode: ParseMode) -> Seq<char> {
    match style {
        TextStyle::Normal => rendered_text(s, mode),
        TextStyle::Bold => match mode {
            ParseMode::Plain => s,
            ParseMode::MarkdownV2 => seq!['*'] + escaped(Escaping::MarkdownV2Text, s) + seq!['*'],
            ParseMode::Html => seq!['<', 'b', '>'] + escaped(Escaping::Html, s) + seq![
                '<',
                '/',
                'b',
                '>',
            ],
        },
    }
}

/// Inline code holding `s`.
pub open spec fn rendered_inline_code(s: Seq<char>, mode: ParseMode) -> Seq<char> {
    match mode {
        ParseMode::Plain => s,
        ParseMode::MarkdownV2 => seq!['`'] + escaped(Escaping::MarkdownV2Code, s) + seq!['`'],
        ParseMode::Html => seq!['<', 'c', 'o', 'd', 'e', '>'] + escaped(Escaping::Html, s) + seq![
            '<',
            '/',
            'c',
            'o',
            'd',
            'e',
            '>',
        ],
    }
}

/// A code block holding `s`.
pub open spec fn rendered_code_block(s: Seq<char>, mode: ParseMode) -> Seq<char> {
    match mode {
        ParseMode::Plain => s,
        ParseMode::MarkdownV2 => seq!['`', '`', '`', '\n'] + escaped(Escaping::MarkdownV2Code, s)
            + seq!['\n', '`', '`', '`'],
        ParseMode::Html => seq!['<', 'p', 'r', 'e', '>'] + escaped(Escaping::Html, s) + seq![
            '<',
            '/',
            'p',
            'r',
            'e',
            '>',
        ],
    }
}

/// The value half of a key/value block.
pub open spec fn rendered_value(v: Value, mode: ParseMode) -> Seq<char> {
    match v {
        Value::Text { value, budget } => rendered_text(budgeted(budget, value@), mode),
        Value::InlineCode { value, budget } => rendered_inline_code(budgeted(budget, value@), mode),
    }
}

/// One block.
pub open spec fn rendered_block(b: Block, mode: ParseMode) -> Seq<char> {
    match b {
        Block::Line(style, text) => rendered_line(style, text@, mode),
        Block::KeyValue { key, value } => rendered_text(key@, mode) + seq![':', ' '] + rendered_value(
            value,
            mode,
        ),
        Block::MultilineValue { key, value, budget } => rendered_text(key@, mode) + seq![':', '\n']
            + rendered_code_block(budgeted(budget, value@), mode),
    }
}

/// All blocks, one after the other, separated by newlines.
pub open spec fn rendered_blocks(blocks: Seq<Block>, mode: ParseMode) -> Seq<char>
    decreases blocks.len(),
{
    if blocks.len() == 0 {
        Seq::empty()
    } else if blocks.len() == 1 {
        rendered_block(blocks[0], mode)
    } else {
        rendered_blocks(blocks.drop_last(), mode) + seq!['\n'] + rendered_block(
            blocks.last(),
            mode,
        )
    }
}

/// Appends `value` cut to its budget and escaped for `e`.
fn push_budgeted(out: &mut String, e: Escaping, budget: ValueBudget, value: &String)
    ensures
        final(out)@ == old(out)@ + escaped(e, budgeted(budget, value@)),
{
    let v = budget.apply(value.as_str());
    push_escaped(out, e, v.as_str());
}

/// Appends `s` rendered as text for `mode`.
fn push_text(out: &mut String, s: &String, mode: ParseMode)
    ensures
        final(out)@ == old(out)@ + rendered_text(s@, mode),
{
    match mode {
        ParseMode::Plain => {
            proof {
                lemma_plain_is_identity(s@);
            }
            push_escaped(out, Escaping::Plain, s.as_str());
        },
        ParseMode::MarkdownV2 => push_escaped(out, Escaping::MarkdownV2Text, s.as_str()),
        ParseMode::Html => push_escaped(out, Escaping::Html, s.as_str()),
    }
}

/// Appends `s` as a line in `style`.
fn push_line(out: &mut String, style: TextStyle, s: &String, mode: ParseMode)
    ensures
        final(out)@ == old(out)@ + rendered_line(style, s@, mode),
{
    let ghost start = out@;
    match (style, mode) {
        (TextStyle::Normal, _) => push_text(out, s, mode),
        (TextStyle::Bold, ParseMode::Plain) => push_text(out, s, mode),
        (TextStyle::Bold, ParseMode::MarkdownV2) => {
            push_char(out, '*');
            push_escaped(out, Escaping::MarkdownV2Text, s.as_str());
            push_char(out, '*');
        },
        (TextStyle::Bold, ParseMode::Html) => {
            push_str(out, "<b>");
            push_escaped(out, Escaping::Html, s.as_str());
            push_str(out, "</b>");
            proof {
                reveal_strlit("<b>");
                reveal_strlit("</b>");
            }
        },
    }
    assert(out@ =~= start + rendered_line(style, s@, mode));
}

/// Appends `value` cut to its budget as inline code.
fn push_inline_code(out: &mut String, budget: ValueBudget, value: &String, mode: ParseMode)
    ensures
        final(out)@ == old(out)@ + rendered_inline_code(budgeted(budget, value@), mode),
{
    let ghost start = out@;
    match mode {
        ParseMode::Plain => {
            proof {
                lemma_plain_is_identity(budgeted(budget, value@));
            }
            push_budgeted(out, Escaping::Plain, budget, value);
        },
        ParseMode::MarkdownV2 => {
            push_char(out, '`');
            push_budgeted(out, Escaping::MarkdownV2Code, budget, value);
            push_char(out, '`');
        },
        ParseMode::Html => {
            push_str(out, "<code>");
            push_budgeted(out, Escaping::Html, budget, value);
            push_str(out, "</code>");
            proof {
                reveal_strlit("<code>");
                reveal_strlit("</code>");
            }
        },
    }
    assert(out@ =~= start + rendered_inline_code(budgeted(budget, value@), mode));
}

/// Appends `value` cut to its budget as a code block.
fn push_code_block(out: &mut String, budget: ValueBudget, value: &String, mode: ParseMode)
    ensures
        final(out)@ == old(out)@ + rendered_code_block(budgeted(budget, value@), mode),
{
    let ghost start = out@;
    match mode {
        ParseMode::Plain => {
            proof {
                lemma_plain_is_identity(budgeted(budget, value@));
            }
            push_budgeted(out, Escaping::Plain, budget, value);
        },
        ParseMode::MarkdownV2 => {
            push_str(out, "```\n");
            push_budgeted(out, Escaping::MarkdownV2Code, budget, value);
            push_str(out, "\n```");
            proof {
                reveal_strlit("```\n");
                reveal_strlit("\n```");
            }
        },
        ParseMode::Html => {
            push_str(out, "<pre>");
            push_budgeted(out, Escaping::Html, budget, value);
            push_str(out, "</pre>");
            proof {
                reveal_strlit("<pre>");
                reveal_strlit("</pre>");
            }
        },
    }
    assert(out@ =~= start + rendered_code_block(budgeted(budget, value@), mode));
}

impl Clone for Value {
    fn clone(&self) -> (r: Self)
        ensures
            r == *self,
    {
        match self {
            Value::Text { value, budget } => Value::Text { value: value.clone(), budget: *budget },
            Value::InlineCode { value, budget } => Value::InlineCode {
                value: value.clone(),
                budget: *budget,
            },
        }
    }
}

impl Clone for Block {
    fn clone(&self) -> (r: Self)
        ensures
            r == *self,
    {
        match self {
            Block::Line(style, text) => Block::Line(*style, text.clone()),
            Block::KeyValue { key, value } => Block::KeyValue { key: key.clone(), value: value.clone() },
            Block::MultilineValue { key, value, budget } => Block::MultilineValue {
                key: key.clone(),
                value: value.clone(),
                budget: *budget,
            },
        }
    }
}

impl ValueBudget {
    /// `value` cut to this budget.
    pub fn apply(self, value: &str) -> (r: String)
        ensures
            r@ == budgeted(self, value@),
    {
        match self {
            ValueBudget::Default => truncate_to_char_limit(value, DEFAULT_VALUE_TEXT_MAX_CHARS),
            ValueBudget::Chars(limit) => truncate_to_char_limit(value, limit),
            ValueBudget::Unlimited => String::from_str(value),
        }
    }
}

impl Value {
    /// Appends this value rendered for `mode`.
    fn render_into(&self, out: &mut String, mode: ParseMode)
        ensures
            final(out)@ == old(out)@ + rendered_value(*self, mode),
    {
        match self {
            Value::Text { value, budget } => {
                let v = budget.apply(value.as_str());
                push_text(out, &v, mode);
            },
            Value::InlineCode { value, budget } => push_inline_code(out, *budget, value, mode),
        }
    }
}

impl Block {
    /// Appends this block rendered for `mode`.
    fn render_into(&self, out: &mut String, mode: ParseMode)
        ensures
            final(out)@ == old(out)@ + rendered_block(*self, mode),
    {
        let ghost start = out@;
        match self {
            Block::Line(style, text) => push_line(out, *style, text, mode),
            Block::KeyValue { key, value } => {
                push_text(out, key, mode);
                push_char(out, ':');
                push_char(out, ' ');
                value.render_into(out, mode);
            },
            Block::MultilineValue { key, value, budget } => {
                push_text(out, key, mode);
                push_char(out, ':');
                push_char(out, '\n');
                push_code_block(out, *budget, value, mode);
            },
        }
        assert(out@ =~= start + rendered_block(*self, mode));
    }
}

/// Renders all blocks for `mode`.
fn render_blocks(blocks: &Vec<Block>, mode: ParseMode) -> (r: String)
    ensures
        r@ == rendered_blocks(blocks@, mode),
{
    let mut out = String::new();
    let n = blocks.len();
    let mut i: usize = 0;
    assert(blocks@.take(0) =~= Seq::<Block>::empty());
    while i < n
        invariant
            n == blocks@.len(),
            i <= n,
            out@ == rendered_blocks(blocks@.take(i as int), mode),
        decreases n - i,
    {
        if i > 0 {
            push_char(&mut out, '\n');
        }
        blocks[i].render_into(&mut out, mode);
        proof {
            let t = blocks@.take(i + 1);
            assert(t.drop_last() =~= blocks@.take(i as int));
            assert(t.last() == blocks@[i as int]);
            assert(out@ =~= rendered_blocks(t, mode));
        }
        i += 1;
    }
    assert(blocks@.take(n as int) =~= blocks@);
    out
}

} // verus!

verus! {

/// The parse mode of a built message: the builder's own mode when the text
/// rendered in it fits the `sendMessage.text` limit, else plain text.
pub open spec fn built_parse_mode(mode: ParseMode, blocks: Seq<Block>) -> ParseMode {
    if rendered_blocks(blocks, mode).len() <= SEND_MESSAGE_TEXT_MAX_CHARS {
        mode
    } else {
        ParseMode::Plain
    }
}

/// The text of a built message: the blocks rendered in the builder's mode when
/// that fits the limit, else the blocks rendered as plain text and truncated.
pub open spec fn built_text(mode: ParseMode, blocks: Seq<Block>) -> Seq<char> {
    if rendered_blocks(blocks, mode).len() <= SEND_MESSAGE_TEXT_MAX_CHARS {
        rendered_blocks(blocks, mode)
    } else {
        truncated(rendered_blocks(blocks, ParseMode::Plain), SEND_MESSAGE_TEXT_MAX_CHARS as nat)
    }
}

/// A complete message, ready to send: its text never exceeds the
/// `sendMessage.text` limit.
#[derive(Debug, PartialEq, Eq)]
pub struct TelegramMessage {
    text: String,
    parse_mode: ParseMode,
}

impl TelegramMessage {
    #[verifier::type_invariant]
    spec fn within_limit(self) -> bool {
        self.text@.len() <= SEND_MESSAGE_TEXT_MAX_CHARS
    }

    /// The message text.
    pub closed spec fn spec_text(&self) -> Seq<char> {
        self.text@
    }

    /// The message's parse mode.
    pub closed spec fn spec_parse_mode(&self) -> ParseMode {
        self.parse_mode
    }

    /// A plain-text message; text beyond the limit is truncated.
    pub fn plain(text: impl core::fmt::Display) -> (r: Self)
        ensures
            r.spec_parse_mode() == ParseMode::Plain,
            exists|s: String|
                #![trigger to_string_from_display_ensures(&text, s)]
                to_string_from_display_ensures(&text, s) && r.spec_text() == truncated(
                    s@,
                    SEND_MESSAGE_TEXT_MAX_CHARS as nat,
                ),
    {
        let s = text.to_string();
        Self::from_text(ParseMode::Plain, s)
    }

    /// A plain-text message from a string slice; text beyond the limit is
    /// truncated.
    pub fn plain_str(text: &str) -> (r: Self)
        ensures
            r.spec_parse_mode() == ParseMode::Plain,
            r.spec_text() == truncated(text@, SEND_MESSAGE_TEXT_MAX_CHARS as nat),
    {
        Self::from_text(ParseMode::Plain, String::from_str(text))
    }

    /// A message with the given parse mode and text; text beyond the limit is
    /// truncated.
    pub fn from_text(parse_mode: ParseMode, text: String) -> (r: Self)
        ensures
            r.spec_parse_mode() == parse_mode,
            r.spec_text() == truncated(text@, SEND_MESSAGE_TEXT_MAX_CHARS as nat),
    {
        let text = truncate_to_limit(text.as_str());
        proof {
            lemma_truncated(text@, SEND_MESSAGE_TEXT_MAX_CHARS as nat);
        }
        TelegramMessage { text, parse_mode }
    }

    /// The message text.
    pub fn text(&self) -> (r: &str)
        ensures
            r@ == self.spec_text(),
            r@.len() <= SEND_MESSAGE_TEXT_MAX_CHARS,
    {
        proof {
            use_type_invariant(self);
        }
        self.text.as_str()
    }

    /// The message's parse mode.
    pub fn parse_mode(&self) -> (r: ParseMode)
        ensures
            r == self.spec_parse_mode(),
    {
        self.parse_mode
    }

    /// The `parse_mode` parameter to send with this message, if any.
    pub fn parse_mode_parameter(&self) -> (r: Option<&'static str>)
        ensures
            match parse_mode_name(self.spec_parse_mode()) {
                None => r is None,
                Some(name) => r is Some && r->0@ == name,
            },
    {
        self.parse_mode.as_telegram_parse_mode()
    }
}

impl Clone for TelegramMessage {
    fn clone(&self) -> (r: Self)
        ensures
            r == *self,
    {
        proof {
            use_type_invariant(self);
        }
        TelegramMessage { text: self.text.clone(), parse_mode: self.parse_mode }
    }
}

/// Builds a message block by block in one parse mode.
#[derive(Debug, PartialEq, Eq)]
pub struct MessageBuilder {
    parse_mode: ParseMode,
    blocks: Vec<Block>,
}

impl Clone for MessageBuilder {
    /// A builder with the same parse mode and the same blocks.
    fn clone(&self) -> (r: Self)
        ensures
            r.spec_parse_mode() == self.spec_parse_mode(),
            r.spec_blocks() == self.spec_blocks(),
    {
        let blocks = self.blocks.clone();
        proof {
            assert forall|i: int| 0 <= i < blocks@.len() implies blocks@[i] == self.blocks@[i] by {
                assert(cloned::<Block>(self.blocks[i], blocks[i]));
            }
            assert(blocks@ =~= self.blocks@);
        }
        MessageBuilder { parse_mode: self.parse_mode, blocks }
    }
}

impl MessageBuilder {
    /// The builder's parse mode.
    pub closed spec fn spec_parse_mode(&self) -> ParseMode {
        self.parse_mode
    }

    /// The blocks added so far, in order.
    pub closed spec fn spec_blocks(&self) -> Seq<Block> {
        self.blocks@
    }

    /// An empty builder for `parse_mode`.
    pub fn new(parse_mode: ParseMode) -> (r: Self)
        ensures
            r.spec_parse_mode() == parse_mode,
            r.spec_blocks() == Seq::<Block>::empty(),
    {
        MessageBuilder { parse_mode, blocks: Vec::new() }
    }

    /// An empty plain-text builder.
    pub fn plain() -> (r: Self)
        ensures
            r.spec_parse_mode() == ParseMode::Plain,
            r.spec_blocks() == Seq::<Block>::empty(),
    {
        Self::new(ParseMode::Plain)
    }

    /// An empty MarkdownV2 builder.
    pub fn markdown_v2() -> (r: Self)
        ensures
            r.spec_parse_mode() == ParseMode::MarkdownV2,
            r.spec_blocks() == Seq::<Block>::empty(),
    {
        Self::new(ParseMode::MarkdownV2)
    }

    /// An empty HTML builder.
    pub fn html() -> (r: Self)
        ensures
            r.spec_parse_mode() == ParseMode::Html,
            r.spec_blocks() == Seq::<Block>::empty(),
    {
        Self::new(ParseMode::Html)
    }

    /// This builder with `block` added at the end.
    fn push_block(self, block: Block) -> (r: Self)
        ensures
            r.spec_parse_mode() == self.spec_parse_mode(),
            r.spec_blocks() == self.spec_blocks().push(block),
    {
        let mut b = self;
        b.blocks.push(block);
        b
    }

    /// Adds a line of text.
    pub fn line(self, text: impl core::fmt::Display) -> (r: Self)
        ensures
            r.spec_parse_mode() == self.spec_parse_mode(),
            r.spec_blocks() == self.spec_blocks().push(r.spec_blocks().last()),
            r.spec_blocks().last() matches Block::Line(style, s) && style == TextStyle::Normal
                && to_string_from_display_ensures(&text, s),
    {
        let s = text.to_string();
        self.push_block(Block::Line(TextStyle::Normal, s))
    }

    /// Adds a bold line of text (plain messages render it as a normal line).
    pub fn bold_line(self, text: impl core::fmt::Display) -> (r: Self)
        ensures
            r.spec_parse_mode() == self.spec_parse_mode(),
            r.spec_blocks() == self.spec_blocks().push(r.spec_blocks().last()),
            r.spec_blocks().last() matches Block::Line(style, s) && style == TextStyle::Bold
                && to_string_from_display_ensures(&text, s),
    {
        let s = text.to_string();
        self.push_block(Block::Line(TextStyle::Bold, s))
    }

    /// Adds `key: value` with the default value budget.
    pub fn kv(self, key: impl core::fmt::Display, value: impl core::fmt::Display) -> (r: Self)
        ensures
            r.spec_parse_mode() == self.spec_parse_mode(),
            r.spec_blocks() == self.spec_blocks().push(r.spec_blocks().last()),
            r.spec_blocks().last() matches Block::KeyValue { key: k, value: Value::Text { value: v, budget: b } }
                && b == ValueBudget::Default && to_string_from_display_ensures(&key, k)
                && to_string_from_display_ensures(&value, v),
    {
        self.kv_with_budget(key, value, ValueBudget::Default)
    }

    /// Adds `key: value` with the given value budget.
    pub fn kv_with_budget(
        self,
        key: impl core::fmt::Display,
        value: impl core::fmt::Display,
        budget: ValueBudget,
    ) -> (r: Self)
        ensures
            r.spec_parse_mode() == self.spec_parse_mode(),
            r.spec_blocks() == self.spec_blocks().push(r.spec_blocks().last()),
            r.spec_blocks().last() matches Block::KeyValue { key: k, value: Value::Text { value: v, budget: b } }
                && b == budget && to_string_from_display_ensures(&key, k)
                && to_string_from_display_ensures(&value, v),
    {
        let k = key.to_string();
        let v = value.to_string();
        self.push_block(Block::KeyValue { key: k, value: Value::Text { value: v, budget } })
    }

    /// Adds `key: value` with the value as inline code and the default budget.
    pub fn kv_code(self, key: impl core::fmt::Display, value: impl core::fmt::Display) -> (r: Self)
        ensures
            r.spec_parse_mode() == self.spec_parse_mode(),
            r.spec_blocks() == self.spec_blocks().push(r.spec_blocks().last()),
            r.spec_blocks().last() matches Block::KeyValue { key: k, value: Value::InlineCode { value: v, budget: b } }
                && b == ValueBudget::Default && to_string_from_display_ensures(&key, k)
                && to_string_from_display_ensures(&value, v),
    {
        self.kv_code_with_budget(key, value, ValueBudget::Default)
    }

    /// Adds `key: value` with the value as inline code and the given budget.
    pub fn kv_code_with_budget(
        self,
        key: impl core::fmt::Display,
        value: impl core::fmt::Display,
        budget: ValueBudget,
    ) -> (r: Self)
        ensures
            r.spec_parse_mode() == self.spec_parse_mode(),
            r.spec_blocks() == self.spec_blocks().push(r.spec_blocks().last()),
            r.spec_blocks().last() matches Block::KeyValue { key: k, value: Value::InlineCode { value: v, budget: b } }
                && b == budget && to_string_from_display_ensures(&key, k)
                && to_string_from_display_ensures(&value, v),
    {
        let k = key.to_string();
        let v = value.to_string();
        self.push_block(Block::KeyValue { key: k, value: Value::InlineCode { value: v, budget } })
    }

    /// Adds `key:` and, on the following lines, `value` as a code block, with
    /// the default budget.
    pub fn error(self, key: impl core::fmt::Display, value: impl core::fmt::Display) -> (r: Self)
        ensures
            r.spec_parse_mode() == self.spec_parse_mode(),
            r.spec_blocks() == self.spec_blocks().push(r.spec_blocks().last()),
            r.spec_blocks().last() matches Block::MultilineValue { key: k, value: v, budget: b }
                && b == ValueBudget::Default && to_string_from_display_ensures(&key, k)
                && to_string_from_display_ensures(&value, v),
    {
        self.error_with_budget(key, value, ValueBudget::Default)
    }

    /// Adds `key:` and, on the following lines, `value` as a code block, with
    /// the given budget.
    pub fn error_with_budget(
        self,
        key: impl core::fmt::Display,
        value: impl core::fmt::Display,
        budget: ValueBudget,
    ) -> (r: Self)
        ensures
            r.spec_parse_mode() == self.spec_parse_mode(),
            r.spec_blocks() == self.spec_blocks().push(r.spec_blocks().last()),
            r.spec_blocks().last() matches Block::MultilineValue { key: k, value: v, budget: b }
                && b == budget && to_string_from_display_ensures(&key, k)
                && to_string_from_display_ensures(&value, v),
    {
        let k = key.to_string();
        let v = value.to_string();
        self.push_block(Block::MultilineValue { key: k, value: v, budget })
    }

    /// Same as `error`.
    pub fn code_block(self, key: impl core::fmt::Display, value: impl core::fmt::Display) -> (r: Self)
        ensures
            r.spec_parse_mode() == self.spec_parse_mode(),
            r.spec_blocks() == self.spec_blocks().push(r.spec_blocks().last()),
            r.spec_blocks().last() matches Block::MultilineValue { key: k, value: v, budget: b }
                && b == ValueBudget::Default && to_string_from_display_ensures(&key, k)
                && to_string_from_display_ensures(&value, v),
    {
        self.error(key, value)
    }

    /// Same as `error_with_budget`.
    pub fn code_block_with_budget(
        self,
        key: impl core::fmt::Display,
        value: impl core::fmt::Display,
        budget: ValueBudget,
    ) -> (r: Self)
        ensures
            r.spec_parse_mode() == self.spec_parse_mode(),
            r.spec_blocks() == self.spec_blocks().push(r.spec_blocks().last()),
            r.spec_blocks().last() matches Block::MultilineValue { key: k, value: v, budget: b }
                && b == budget && to_string_from_display_ensures(&key, k)
                && to_string_from_display_ensures(&value, v),
    {
        self.error_with_budget(key, value, budget)
    }

    /// Adds a line of text given as a string slice.
    pub fn line_str(self, text: &str) -> (r: Self)
        ensures
            r.spec_parse_mode() == self.spec_parse_mode(),
            r.spec_blocks() == self.spec_blocks().push(r.spec_blocks().last()),
            r.spec_blocks().last() matches Block::Line(style, s) && style == TextStyle::Normal
                && s@ == text@,
    {
        self.push_block(Block::Line(TextStyle::Normal, String::from_str(text)))
    }

    /// Adds a bold line of text given as a string slice.
    pub fn bold_line_str(self, text: &str) -> (r: Self)
        ensures
            r.spec_parse_mode() == self.spec_parse_mode(),
            r.spec_blocks() == self.spec_blocks().push(r.spec_blocks().last()),
            r.spec_blocks().last() matches Block::Line(style, s) && style == TextStyle::Bold
                && s@ == text@,
    {
        self.push_block(Block::Line(TextStyle::Bold, String::from_str(text)))
    }

    /// Adds `key: value`, both given as string slices, with the given budget.
    pub fn kv_str_with_budget(self, key: &str, value: &str, budget: ValueBudget) -> (r: Self)
        ensures
            r.spec_parse_mode() == self.spec_parse_mode(),
            r.spec_blocks() == self.spec_blocks().push(r.spec_blocks().last()),
            r.spec_blocks().last() matches Block::KeyValue { key: k, value: Value::Text { value: v, budget: b } }
                && b == budget && k@ == key@ && v@ == value@,
    {
        let k = String::from_str(key);
        let v = String::from_str(value);
        self.push_block(Block::KeyValue { key: k, value: Value::Text { value: v, budget } })
    }

    /// Adds `key: value` with the value as inline code, both given as string
    /// slices, with the given budget.
    pub fn kv_code_str_with_budget(self, key: &str, value: &str, budget: ValueBudget) -> (r: Self)
        ensures
            r.spec_parse_mode() == self.spec_parse_mode(),
            r.spec_blocks() == self.spec_blocks().push(r.spec_blocks().last()),
            r.spec_blocks().last() matches Block::KeyValue { key: k, value: Value::InlineCode { value: v, budget: b } }
                && b == budget && k@ == key@ && v@ == value@,
    {
        let k = String::from_str(key);
        let v = String::from_str(value);
        self.push_block(Block::KeyValue { key: k, value: Value::InlineCode { value: v, budget } })
    }

    /// Adds `key:` and, on the following lines, `value` as a code block, both
    /// given as string slices, with the given budget.
    pub fn error_str_with_budget(self, key: &str, value: &str, budget: ValueBudget) -> (r: Self)
        ensures
            r.spec_parse_mode() == self.spec_parse_mode(),
            r.spec_blocks() == self.spec_blocks().push(r.spec_blocks().last()),
            r.spec_blocks().last() matches Block::MultilineValue { key: k, value: v, budget: b }
                && b == budget && k@ == key@ && v@ == value@,
    {
        let k = String::from_str(key);
        let v = String::from_str(value);
        self.push_block(Block::MultilineValue { key: k, value: v, budget })
    }

    /// The text of all blocks rendered for `parse_mode`, separated by newlines.
    pub fn render(&self, parse_mode: ParseMode) -> (r: String)
        ensures
            r@ == rendered_blocks(self.spec_blocks(), parse_mode),
    {
        render_blocks(&self.blocks, parse_mode)
    }

    /// The finished message. When the text rendered in the builder's parse
    /// mode exceeds the limit, the message falls back to plain text, truncated.
    pub fn build(self) -> (r: TelegramMessage)
        ensures
            r.spec_parse_mode() == built_parse_mode(self.spec_parse_mode(), self.spec_blocks()),
            r.spec_text() == built_text(self.spec_parse_mode(), self.spec_blocks()),
    {
        let rendered = self.render(self.parse_mode);
        if char_count(rendered.as_str()) <= SEND_MESSAGE_TEXT_MAX_CHARS {
            TelegramMessage { text: rendered, parse_mode: self.parse_mode }
        } else {
            let plain = self.render(ParseMode::Plain);
            let text = truncate_to_limit(plain.as_str());
            proof {
                lemma_truncated(plain@, SEND_MESSAGE_TEXT_MAX_CHARS as nat);
            }
            TelegramMessage { text, parse_mode: ParseMode::Plain }
        }
    }

    /// The finished message, or `MessageTooLong` when the text rendered in the
    /// builder's parse mode exceeds the limit.
    pub fn try_build_untruncated(self) -> (r: Result<TelegramMessage, Error>)
        ensures
            ({
                let text = rendered_blocks(self.spec_blocks(), self.spec_parse_mode());
                if text.len() <= SEND_MESSAGE_TEXT_MAX_CHARS {
                    r matches Ok(m) && m.spec_text() == text && m.spec_parse_mode()
                        == self.spec_parse_mode()
                } else {
                    r == Err::<TelegramMessage, Error>(
                        Error::MessageTooLong {
                            chars: text.len() as usize,
                            limit: SEND_MESSAGE_TEXT_MAX_CHARS,
                        },
                    )
                }
            }),
    {
        let rendered = self.render(self.parse_mode);
        let chars = char_count(rendered.as_str());
        if chars <= SEND_MESSAGE_TEXT_MAX_CHARS {
            Ok(TelegramMessage { text: rendered, parse_mode: self.parse_mode })
        } else {
            Err(Error::MessageTooLong { chars, limit: SEND_MESSAGE_TEXT_MAX_CHARS })
        }
    }
}

} // verus!

verus! {

/// A built message never exceeds the `sendMessage.text` limit.
pub proof fn lemma_built_text_within_limit(mode: ParseMode, blocks: Seq<Block>)
    ensures
        built_text(mode, blocks).len() <= SEND_MESSAGE_TEXT_MAX_CHARS,
{
    lemma_truncated(rendered_blocks(blocks, ParseMode::Plain), SEND_MESSAGE_TEXT_MAX_CHARS as nat);
}

/// When the untruncated build succeeds, it gives the message that `build`
/// gives; it fails exactly when `build` has to fall back to truncated plain text.
pub proof fn lemma_untruncated_agrees_with_build(mode: ParseMode, blocks: Seq<Block>)
    ensures
        rendered_blocks(blocks, mode).len() <= SEND_MESSAGE_TEXT_MAX_CHARS ==> built_text(
            mode,
            blocks,
        ) == rendered_blocks(blocks, mode) && built_parse_mode(mode, blocks) == mode,
        rendered_blocks(blocks, mode).len() > SEND_MESSAGE_TEXT_MAX_CHARS ==> built_parse_mode(
            mode,
            blocks,
        ) == ParseMode::Plain,
{
}

/// A value never exceeds its budget: the default budget keeps at most
/// `DEFAULT_VALUE_TEXT_MAX_CHARS` characters, `Chars(n)` at most `n`, and
/// `Unlimited` keeps the value as it is.
pub proof fn lemma_budgeted_len(budget: ValueBudget, s: Seq<char>)
    ensures
        budget == ValueBudget::Default ==> budgeted(budget, s).len() <= DEFAULT_VALUE_TEXT_MAX_CHARS,
        budget matches ValueBudget::Chars(n) ==> budgeted(budget, s).len() <= n,
        budget == ValueBudget::Unlimited ==> budgeted(budget, s) == s,
        budgeted(budget, s).len() <= s.len(),
{
    match budget {
        ValueBudget::Default => lemma_truncated(s, DEFAULT_VALUE_TEXT_MAX_CHARS as nat),
        ValueBudget::Chars(n) => lemma_truncated(s, n as nat),
        ValueBudget::Unlimited => {},
    }
}

/// Adding a block appends its rendering, after a newline, to the rendering
/// of the blocks before it: earlier blocks are never changed by later ones.
pub proof fn lemma_rendered_push(blocks: Seq<Block>, block: Block, mode: ParseMode)
    ensures
        blocks.len() == 0 ==> rendered_blocks(blocks.push(block), mode) == rendered_block(
            block,
            mode,
        ),
        blocks.len() > 0 ==> rendered_blocks(blocks.push(block), mode) == rendered_blocks(
            blocks,
            mode,
        ) + seq!['\n'] + rendered_block(block, mode),
{
    assert(blocks.push(block).drop_last() =~= blocks);
    assert(blocks.push(block).last() == block);
    if blocks.len() == 0 {
        assert(blocks.push(block)[0] == block);
    }
}

/// In a plain-text message every line is its text, unchanged.
pub proof fn lemma_plain_line(style: TextStyle, s: Seq<char>)
    ensures
        rendered_line(style, s, ParseMode::Plain) == s,
{
}

} // verus!

verus! {

/// The most characters a value can occupy under its budget, whatever its size
/// when the budget is bounded.
pub open spec fn budget_cap(budget: ValueBudget, s: Seq<char>) -> nat {
    match budget {
        ValueBudget::Default => DEFAULT_VALUE_TEXT_MAX_CHARS as nat,
        ValueBudget::Chars(n) => n as nat,
        ValueBudget::Unlimited => s.len(),
    }
}

/// An upper bound on a block's length in a plain-text message. For values
/// with a bounded budget it does not depend on the value.
pub open spec fn plain_block_size_bound(b: Block) -> nat {
    match b {
        Block::Line(_, text) => text@.len(),
        Block::KeyValue { key, value } => key@.len() + 2 + match value {
            Value::Text { value, budget } => budget_cap(budget, value@),
            Value::InlineCode { value, budget } => budget_cap(budget, value@),
        },
        Block::MultilineValue { key, value, budget } => key@.len() + 2 + budget_cap(budget, value@),
    }
}

/// An upper bound on the length of blocks rendered as plain text.
pub open spec fn plain_size_bound(blocks: Seq<Block>) -> nat
    decreases blocks.len(),
{
    if blocks.len() == 0 {
        0
    } else if blocks.len() == 1 {
        plain_block_size_bound(blocks[0])
    } else {
        plain_size_bound(blocks.drop_last()) + 1 + plain_block_size_bound(blocks.last())
    }
}

proof fn lemma_budgeted_within_cap(budget: ValueBudget, s: Seq<char>)
    ensures
        budgeted(budget, s).len() <= budget_cap(budget, s),
{
    lemma_budgeted_len(budget, s);
}

/// A block's plain-text length is within its bound.
pub proof fn lemma_plain_block_within_bound(b: Block)
    ensures
        rendered_block(b, ParseMode::Plain).len() <= plain_block_size_bound(b),
{
    match b {
        Block::Line(_, _) => {},
        Block::KeyValue { key, value } => match value {
            Value::Text { value, budget } => lemma_budgeted_within_cap(budget, value@),
            Value::InlineCode { value, budget } => lemma_budgeted_within_cap(budget, value@),
        },
        Block::MultilineValue { key, value, budget } => lemma_budgeted_within_cap(budget, value@),
    }
}

/// Plain-text rendering stays within the bound.
pub proof fn lemma_plain_within_bound(blocks: Seq<Block>)
    ensures
        rendered_blocks(blocks, ParseMode::Plain).len() <= plain_size_bound(blocks),
    decreases blocks.len(),
{
    if blocks.len() == 1 {
        lemma_plain_block_within_bound(blocks[0]);
    } else if blocks.len() > 1 {
        lemma_plain_within_bound(blocks.drop_last());
        lemma_plain_block_within_bound(blocks.last());
    }
}

/// Value budgets keep large values from hiding later fields: when the bound
/// of a plain-text builder's blocks fits the limit, which for bounded budgets
/// holds whatever the values' sizes, the built message holds every block,
/// rendered in full and in order, and a block added at the end appears in
/// full at the end of the message.
pub proof fn lemma_budgets_keep_later_fields(blocks: Seq<Block>, last: Block)
    ensures
        plain_size_bound(blocks) <= SEND_MESSAGE_TEXT_MAX_CHARS ==> built_text(
            ParseMode::Plain,
            blocks,
        ) == rendered_blocks(blocks, ParseMode::Plain) && built_parse_mode(ParseMode::Plain, blocks)
            == ParseMode::Plain,
        plain_size_bound(blocks.push(last)) <= SEND_MESSAGE_TEXT_MAX_CHARS && blocks.len() > 0
            ==> built_text(ParseMode::Plain, blocks.push(last)) == rendered_blocks(
            blocks,
            ParseMode::Plain,
        ) + seq!['\n'] + rendered_block(last, ParseMode::Plain),
{
    lemma_plain_within_bound(blocks);
    lemma_plain_within_bound(blocks.push(last));
    lemma_rendered_push(blocks, last, ParseMode::Plain);
}

} // verus!

verus! {

/// Nothing is ever cut from a message whose plain-text bound fits the limit,
/// whatever its parse mode: the built text is the full rendering of every
/// block in the mode the message is sent in (the builder's mode when its
/// rendering fits, plain text otherwise).
pub proof fn lemma_bounded_message_is_never_cut(mode: ParseMode, blocks: Seq<Block>)
    ensures
        plain_size_bound(blocks) <= SEND_MESSAGE_TEXT_MAX_CHARS ==> built_text(mode, blocks)
            == rendered_blocks(blocks, built_parse_mode(mode, blocks)),
{
    lemma_plain_within_bound(blocks);
    lemma_truncated(rendered_blocks(blocks, ParseMode::Plain), SEND_MESSAGE_TEXT_MAX_CHARS as nat);
}

} // verus!
