//! Escaping of dynamic text for the three Telegram parse modes.
//!
//! Telegram's Bot API documents which characters must be escaped:
//! - plain text (no `parse_mode`) is sent as is;
//! - MarkdownV2 text: each of `_*[]()~\`>#+-=|{}.!` and `\` is preceded by `\`;
//! - MarkdownV2 `code`/`pre` entities: each `` ` `` and `\` is preceded by `\`;
//! - HTML: `<`, `>` and `&` become `&lt;`, `&gt;` and `&amp;`.

use vstd::prelude::*;
use crate::text::{chars_of, push_char};

verus! {

broadcast use vstd::string::group_string_axioms;

/// The escaping rule applied to a piece of dynamic text.
#[derive(Clone, Copy, Debug, PartialEq, Eq, Structural)]
pub enum Escaping {
    /// No escaping (plain text messages).
    Plain,
    /// MarkdownV2 ordinary text.
    MarkdownV2Text,
    /// Text inside a MarkdownV2 inline code or code block entity.
    MarkdownV2Code,
    /// HTML text, also used inside `<code>` and `<pre>`.
    Html,
}

/// Characters that MarkdownV2 reserves outside code entities.
pub open spec fn is_markdown_v2_special(c: char) -> bool {
    ||| c == '_' ||| c == '*' ||| c == '[' ||| c == ']' ||| c == '(' ||| c == ')'
    ||| c == '~' ||| c == '`' ||| c == '>' ||| c == '#' ||| c == '+' ||| c == '-'
    ||| c == '=' ||| c == '|' ||| c == '{' ||| c == '}' ||| c == '.' ||| c == '!'
    ||| c == '\\'
}

/// Characters that must be escaped inside MarkdownV2 code entities.
pub open spec fn is_markdown_v2_code_special(c: char) -> bool {
    c == '`' || c == '\\'
}

/// What one input character becomes under an escaping rule.
pub open spec fn escaped_char(e: Escaping, c: char) -> Seq<char> {
    match e {
        Escaping::Plain => seq![c],
        Escaping::MarkdownV2Text => if is_markdown_v2_special(c) {
            seq!['\\', c]
        } else {
            seq![c]
        },
        Escaping::MarkdownV2Code => if is_markdown_v2_code_special(c) {
            seq!['\\', c]
        } else {
            seq![c]
        },
        Escaping::Html => if c == '<' {
            seq!['&', 'l', 't', ';']
        } else if c == '>' {
            seq!['&', 'g', 't', ';']
        } else if c == '&' {
            seq!['&', 'a', 'm', 'p', ';']
        } else {
            seq![c]
        },
    }
}

/// The escaped form of a whole character sequence: each character escaped in turn.
pub open spec fn escaped(e: Escaping, s: Seq<char>) -> Seq<char>
    decreases s.len(),
{
    if s.len() == 0 {
        Seq::empty()
    } else {
        escaped(e, s.drop_last()) + escaped_char(e, s.last())
    }
}

/// Escaping a prefix one character longer appends that character's escape.
pub proof fn lemma_escaped_take_step(e: Escaping, s: Seq<char>, i: int)
    requires
        0 <= i < s.len(),
    ensures
        escaped(e, s.take(i + 1)) == escaped(e, s.take(i)) + escaped_char(e, s[i]),
{
    assert(s.take(i + 1).drop_last() =~= s.take(i));
    assert(s.take(i + 1).last() == s[i]);
}

/// Escaping distributes over concatenation.
pub proof fn lemma_escaped_concat(e: Escaping, a: Seq<char>, b: Seq<char>)
    ensures
        escaped(e, a + b) == escaped(e, a) + escaped(e, b),
    decreases b.len(),
{
    if b.len() == 0 {
        assert(a + b =~= a);
        assert(escaped(e, a) + escaped(e, b) =~= escaped(e, a));
    } else {
        lemma_escaped_concat(e, a, b.drop_last());
        assert((a + b).drop_last() =~= a + b.drop_last());
        assert((a + b).last() == b.last());
        assert(escaped(e, a) + escaped(e, b.drop_last()) + escaped_char(e, b.last()) =~= escaped(
            e,
            a,
        ) + (escaped(e, b.drop_last()) + escaped_char(e, b.last())));
    }
}

/// Plain text is never changed by escaping.
pub proof fn lemma_plain_is_identity(s: Seq<char>)
    ensures
        escaped(Escaping::Plain, s) == s,
    decreases s.len(),
{
    if s.len() > 0 {
        lemma_plain_is_identity(s.drop_last());
        assert(s.drop_last().push(s.last()) =~= s);
    }
}

/// Escaping never shortens text.
pub proof fn lemma_escaped_len(e: Escaping, s: Seq<char>)
    ensures
        escaped(e, s).len() >= s.len(),
    decreases s.len(),
{
    if s.len() > 0 {
        lemma_escaped_len(e, s.drop_last());
    }
}

/// Appends the escape of one character.
fn push_escaped_char(out: &mut String, e: Escaping, c: char)
    ensures
        final(out)@ == old(out)@ + escaped_char(e, c),
{
    let ghost start = out@;
    match e {
        Escaping::Plain => {
            push_char(out, c);
        },
        Escaping::MarkdownV2Text => {
            if c == '_' || c == '*' || c == '[' || c == ']' || c == '(' || c == ')' || c == '~'
                || c == '`' || c == '>' || c == '#' || c == '+' || c == '-' || c == '=' || c == '|'
                || c == '{' || c == '}' || c == '.' || c == '!' || c == '\\' {
                push_char(out, '\\');
            }
            push_char(out, c);
        },
        Escaping::MarkdownV2Code => {
            if c == '`' || c == '\\' {
                push_char(out, '\\');
            }
            push_char(out, c);
        },
        Escaping::Html => {
            if c == '<' {
                push_char(out, '&');
                push_char(out, 'l');
                push_char(out, 't');
                push_char(out, ';');
            } else if c == '>' {
                push_char(out, '&');
                push_char(out, 'g');
                push_char(out, 't');
                push_char(out, ';');
            } else if c == '&' {
                push_char(out, '&');
                push_char(out, 'a');
                push_char(out, 'm');
                push_char(out, 'p');
                push_char(out, ';');
            } else {
                push_char(out, c);
            }
        },
    }
    assert(out@ =~= start + escaped_char(e, c));
}

/// Appends the escape of `input` under rule `e`.
pub fn push_escaped(out: &mut String, e: Escaping, input: &str)
    ensures
        final(out)@ == old(out)@ + escaped(e, input@),
{
    let chars = chars_of(input);
    let n = chars.len();
    let mut i: usize = 0;
    assert(input@.take(0) =~= Seq::<char>::empty());
    while i < n
        invariant
            n == chars@.len(),
            chars@ == input@,
            i <= n,
            out@ == old(out)@ + escaped(e, input@.take(i as int)),
        decreases n - i,
    {
        proof {
            lemma_escaped_take_step(e, input@, i as int);
        }
        push_escaped_char(out, e, chars[i]);
        i += 1;
    }
    assert(input@.take(n as int) =~= input@);
}

/// The escape of `input` under rule `e`, as a new string.
pub fn escape(e: Escaping, input: &str) -> (r: String)
    ensures
        r@ == escaped(e, input@),
{
    let mut out = String::new();
    push_escaped(&mut out, e, input);
    assert(out@ =~= escaped(e, input@));
    out
}

/// Text for a plain (no `parse_mode`) message: sent unchanged.
pub fn plain_text(input: &str) -> (r: String)
    ensures
        r@ == input@,
{
    let r = escape(Escaping::Plain, input);
    proof {
        lemma_plain_is_identity(input@);
    }
    r
}

/// MarkdownV2 ordinary text.
pub fn markdown_v2_text(input: &str) -> (r: String)
    ensures
        r@ == escaped(Escaping::MarkdownV2Text, input@),
{
    escape(Escaping::MarkdownV2Text, input)
}

/// HTML text.
pub fn html_text(input: &str) -> (r: String)
    ensures
        r@ == escaped(Escaping::Html, input@),
{
    escape(Escaping::Html, input)
}

} // verus!

verus! {

/// Escaping a character in front of a text puts its escape in front.
pub proof fn lemma_escaped_cons(e: Escaping, c: char, rest: Seq<char>)
    ensures
        escaped(e, seq![c] + rest) == escaped_char(e, c) + escaped(e, rest),
{
    lemma_escaped_concat(e, seq![c], rest);
    assert(seq![c].drop_last() =~= Seq::<char>::empty());
    assert(escaped(e, Seq::<char>::empty()) =~= Seq::<char>::empty());
    assert(seq![c].last() == c);
    assert(escaped(e, seq![c]) =~= escaped_char(e, c));
}

/// Whether `t` is well-formed MarkdownV2 text: every reserved character is
/// preceded by a backslash, and every backslash escapes a reserved character.
pub open spec fn is_safe_markdown_v2_text(t: Seq<char>) -> bool
    decreases t.len(),
{
    if t.len() == 0 {
        true
    } else if t[0] == '\\' {
        t.len() >= 2 && is_markdown_v2_special(t[1]) && is_safe_markdown_v2_text(t.skip(2))
    } else {
        !is_markdown_v2_special(t[0]) && is_safe_markdown_v2_text(t.skip(1))
    }
}

/// Whether `t` is well-formed content of a MarkdownV2 code entity: every
/// `` ` `` and `\` is preceded by a backslash, and every backslash escapes one.
pub open spec fn is_safe_markdown_v2_code(t: Seq<char>) -> bool
    decreases t.len(),
{
    if t.len() == 0 {
        true
    } else if t[0] == '\\' {
        t.len() >= 2 && is_markdown_v2_code_special(t[1]) && is_safe_markdown_v2_code(t.skip(2))
    } else {
        !is_markdown_v2_code_special(t[0]) && is_safe_markdown_v2_code(t.skip(1))
    }
}

/// Whether `t` is well-formed HTML text: no `<` or `>` at all, and every `&`
/// starts one of the entities `&lt;`, `&gt;`, `&amp;`.
pub open spec fn is_safe_html(t: Seq<char>) -> bool
    decreases t.len(),
{
    if t.len() == 0 {
        true
    } else if t[0] == '&' {
        if t.len() >= 4 && t.take(4) == seq!['&', 'l', 't', ';'] {
            is_safe_html(t.skip(4))
        } else if t.len() >= 4 && t.take(4) == seq!['&', 'g', 't', ';'] {
            is_safe_html(t.skip(4))
        } else if t.len() >= 5 && t.take(5) == seq!['&', 'a', 'm', 'p', ';'] {
            is_safe_html(t.skip(5))
        } else {
            false
        }
    } else {
        t[0] != '<' && t[0] != '>' && is_safe_html(t.skip(1))
    }
}

/// Reads back text escaped with a backslash: a backslash stands for the
/// character after it.
pub open spec fn backslash_unescaped(t: Seq<char>) -> Seq<char>
    decreases t.len(),
{
    if t.len() == 0 {
        Seq::empty()
    } else if t[0] == '\\' && t.len() >= 2 {
        seq![t[1]] + backslash_unescaped(t.skip(2))
    } else {
        seq![t[0]] + backslash_unescaped(t.skip(1))
    }
}

/// Reads back HTML text: the entities `&lt;`, `&gt;`, `&amp;` stand for
/// `<`, `>`, `&`.
pub open spec fn html_unescaped(t: Seq<char>) -> Seq<char>
    decreases t.len(),
{
    if t.len() == 0 {
        Seq::empty()
    } else if t.len() >= 4 && t.take(4) == seq!['&', 'l', 't', ';'] {
        seq!['<'] + html_unescaped(t.skip(4))
    } else if t.len() >= 4 && t.take(4) == seq!['&', 'g', 't', ';'] {
        seq!['>'] + html_unescaped(t.skip(4))
    } else if t.len() >= 5 && t.take(5) == seq!['&', 'a', 'm', 'p', ';'] {
        seq!['&'] + html_unescaped(t.skip(5))
    } else {
        seq![t[0]] + html_unescaped(t.skip(1))
    }
}

/// MarkdownV2 escaping is safe and loses nothing: its output is well-formed
/// MarkdownV2 text and reads back as the input.
pub proof fn lemma_markdown_v2_text_escaping(s: Seq<char>)
    ensures
        is_safe_markdown_v2_text(escaped(Escaping::MarkdownV2Text, s)),
        backslash_unescaped(escaped(Escaping::MarkdownV2Text, s)) == s,
    decreases s.len(),
{
    let e = Escaping::MarkdownV2Text;
    if s.len() > 0 {
        let c = s[0];
        let rest = s.skip(1);
        assert(s =~= seq![c] + rest);
        lemma_escaped_cons(e, c, rest);
        lemma_markdown_v2_text_escaping(rest);
        let t = escaped(e, s);
        let tail = escaped(e, rest);
        if is_markdown_v2_special(c) {
            assert(t =~= seq!['\\', c] + tail);
            assert(t.skip(2) =~= tail);
        } else {
            assert(t =~= seq![c] + tail);
            assert(t.skip(1) =~= tail);
        }
        assert(backslash_unescaped(t) =~= s);
    } else {
        assert(escaped(e, s) =~= Seq::<char>::empty());
    }
}

/// Escaping for MarkdownV2 code entities is safe and loses nothing.
pub proof fn lemma_markdown_v2_code_escaping(s: Seq<char>)
    ensures
        is_safe_markdown_v2_code(escaped(Escaping::MarkdownV2Code, s)),
        backslash_unescaped(escaped(Escaping::MarkdownV2Code, s)) == s,
    decreases s.len(),
{
    let e = Escaping::MarkdownV2Code;
    if s.len() > 0 {
        let c = s[0];
        let rest = s.skip(1);
        assert(s =~= seq![c] + rest);
        lemma_escaped_cons(e, c, rest);
        lemma_markdown_v2_code_escaping(rest);
        let t = escaped(e, s);
        let tail = escaped(e, rest);
        if is_markdown_v2_code_special(c) {
            assert(t =~= seq!['\\', c] + tail);
            assert(t.skip(2) =~= tail);
        } else {
            assert(t =~= seq![c] + tail);
            assert(t.skip(1) =~= tail);
        }
        assert(backslash_unescaped(t) =~= s);
    } else {
        assert(escaped(e, s) =~= Seq::<char>::empty());
    }
}

/// HTML escaping is safe and loses nothing: its output is well-formed HTML
/// text and reads back as the input.
pub proof fn lemma_html_escaping(s: Seq<char>)
    ensures
        is_safe_html(escaped(Escaping::Html, s)),
        html_unescaped(escaped(Escaping::Html, s)) == s,
    decreases s.len(),
{
    let e = Escaping::Html;
    if s.len() > 0 {
        let c = s[0];
        let rest = s.skip(1);
        assert(s =~= seq![c] + rest);
        lemma_escaped_cons(e, c, rest);
        lemma_html_escaping(rest);
        let t = escaped(e, s);
        let tail = escaped(e, rest);
        if c == '<' {
            assert(t =~= seq!['&', 'l', 't', ';'] + tail);
            assert(t.take(4) =~= seq!['&', 'l', 't', ';']);
            assert(t.skip(4) =~= tail);
        } else if c == '>' {
            assert(t =~= seq!['&', 'g', 't', ';'] + tail);
            assert(t.take(4) =~= seq!['&', 'g', 't', ';']);
            assert(t.take(4) != seq!['&', 'l', 't', ';']) by {
                assert(t.take(4)[1] == 'g');
            }
            assert(t.skip(4) =~= tail);
        } else if c == '&' {
            assert(t =~= seq!['&', 'a', 'm', 'p', ';'] + tail);
            assert(t.take(5) =~= seq!['&', 'a', 'm', 'p', ';']);
            assert(t.take(4) != seq!['&', 'l', 't', ';']) by {
                assert(t.take(4)[1] == 'a');
            }
            assert(t.take(4) != seq!['&', 'g', 't', ';']) by {
                assert(t.take(4)[1] == 'a');
            }
            assert(t.skip(5) =~= tail);
        } else {
            assert(t =~= seq![c] + tail);
            assert(t.skip(1) =~= tail);
            if t.len() >= 4 {
                assert(t.take(4) != seq!['&', 'l', 't', ';']) by {
                    assert(t.take(4)[0] == c);
                }
                assert(t.take(4) != seq!['&', 'g', 't', ';']) by {
                    assert(t.take(4)[0] == c);
                }
            }
            if t.len() >= 5 {
                assert(t.take(5) != seq!['&', 'a', 'm', 'p', ';']) by {
                    assert(t.take(5)[0] == c);
                }
            }
        }
        assert(html_unescaped(t) =~= s);
    } else {
        assert(escaped(e, s) =~= Seq::<char>::empty());
    }
}

} // verus!
