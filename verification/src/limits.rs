//! Telegram's length limits and the character-based truncation applied to
//! whole messages and to individual values.

use vstd::prelude::*;
use crate::text::{chars_of, char_count, push_chars};

verus! {

broadcast use vstd::string::group_string_axioms;

/// Maximum number of characters of `sendMessage.text`.
pub const SEND_MESSAGE_TEXT_MAX_CHARS: usize = 4096;

/// Maximum number of bytes of an inline keyboard button's callback data.
pub const CALLBACK_DATA_MAX_BYTES: usize = 64;

/// Per-value character budget used by `ValueBudget::Default`.
pub const DEFAULT_VALUE_TEXT_MAX_CHARS: usize = SEND_MESSAGE_TEXT_MAX_CHARS / 4;

/// Number of characters of the truncation marker.
pub const TRUNCATION_MARKER_CHARS: usize = 12;

/// The marker that ends truncated text: a newline followed by `[truncated]`.
pub open spec fn truncation_marker() -> Seq<char> {
    seq!['\n', '[', 't', 'r', 'u', 'n', 'c', 'a', 't', 'e', 'd', ']']
}

/// How many characters of the original text survive truncation to `limit`.
pub open spec fn kept_chars(limit: nat) -> nat {
    if limit >= TRUNCATION_MARKER_CHARS {
        (limit - TRUNCATION_MARKER_CHARS) as nat
    } else {
        0
    }
}

/// `s` cut to at most `limit` characters. Text that fits is unchanged; longer
/// text keeps its first `limit - 12` characters followed by the marker, the
/// whole cut to `limit` characters.
pub open spec fn truncated(s: Seq<char>, limit: nat) -> Seq<char> {
    if s.len() <= limit {
        s
    } else {
        (s.take(kept_chars(limit) as int) + truncation_marker()).take(limit as int)
    }
}

/// Truncation to `limit` characters: its length is the smaller of the input's
/// length and `limit`; text that is cut keeps its start and, when `limit`
/// leaves room for it, ends with the marker; truncating twice is truncating once.
pub proof fn lemma_truncated(s: Seq<char>, limit: nat)
    ensures
        truncated(s, limit).len() == if s.len() <= limit { s.len() } else { limit },
        s.len() <= limit ==> truncated(s, limit) == s,
        s.len() > limit ==> truncated(s, limit).take(kept_chars(limit) as int) == s.take(
            kept_chars(limit) as int,
        ),
        s.len() > limit && limit >= TRUNCATION_MARKER_CHARS ==> truncated(s, limit).skip(
            kept_chars(limit) as int,
        ) == truncation_marker(),
        truncated(truncated(s, limit), limit) == truncated(s, limit),
{
    if s.len() > limit {
        let k = kept_chars(limit) as int;
        let t = s.take(k) + truncation_marker();
        assert(t.take(limit as int).take(k) =~= s.take(k));
        if limit >= TRUNCATION_MARKER_CHARS {
            assert(t.take(limit as int).skip(k) =~= truncation_marker());
        }
    }
}

/// `input` truncated to at most `limit` characters.
pub fn truncate_to_char_limit(input: &str, limit: usize) -> (r: String)
    ensures
        r@ == truncated(input@, limit as nat),
{
    let n = char_count(input);
    if n <= limit {
        String::from_str(input)
    } else {
        let chars = chars_of(input);
        let keep = limit.saturating_sub(TRUNCATION_MARKER_CHARS);
        let marker = chars_of("\n[truncated]");
        proof {
            reveal_strlit("\n[truncated]");
            assert(marker@ =~= truncation_marker());
        }
        let mut out = String::new();
        push_chars(&mut out, &chars, 0, keep);
        let rest = limit - keep;
        let m = if rest < TRUNCATION_MARKER_CHARS {
            rest
        } else {
            TRUNCATION_MARKER_CHARS
        };
        push_chars(&mut out, &marker, 0, m);
        assert(out@ =~= truncated(input@, limit as nat));
        out
    }
}

/// `input` truncated to the `sendMessage.text` limit.
pub fn truncate_to_limit(input: &str) -> (r: String)
    ensures
        r@ == truncated(input@, SEND_MESSAGE_TEXT_MAX_CHARS as nat),
{
    truncate_to_char_limit(input, SEND_MESSAGE_TEXT_MAX_CHARS)
}

} // verus!
