//! Errors returned while building or sending Telegram messages, and their
//! human-readable descriptions.

use vstd::prelude::*;
use crate::text::{push_char, push_str};
use vstd::std_specs::convert::FromSpecImpl;
use vstd::string::to_string_from_display_ensures;
use serde_json::Error as JsonError;
use std::io::Error as IoError;

verus! {

broadcast use vstd::string::group_string_axioms;

/// Errors returned while building or sending Telegram messages.
#[derive(Debug, Clone, PartialEq, Eq)]
pub enum Error {
    CallbackDataTooLong { bytes: usize },
    MessageTooLong { chars: usize, limit: usize },
    Http(String),
    Telegram(String),
    Json(String),
}

/// The decimal digit character for `d < 10`.
pub open spec fn digit_char(d: nat) -> char {
    if d == 0 {
        '0'
    } else if d == 1 {
        '1'
    } else if d == 2 {
        '2'
    } else if d == 3 {
        '3'
    } else if d == 4 {
        '4'
    } else if d == 5 {
        '5'
    } else if d == 6 {
        '6'
    } else if d == 7 {
        '7'
    } else if d == 8 {
        '8'
    } else {
        '9'
    }
}

/// The decimal notation of `n`, without leading zeros.
pub open spec fn decimal(n: nat) -> Seq<char>
    decreases n,
{
    if n < 10 {
        seq![digit_char(n)]
    } else {
        decimal(n / 10).push(digit_char(n % 10))
    }
}

fn digit(d: usize) -> (c: char)
    requires
        d < 10,
    ensures
        c == digit_char(d as nat),
{
    if d == 0 {
        '0'
    } else if d == 1 {
        '1'
    } else if d == 2 {
        '2'
    } else if d == 3 {
        '3'
    } else if d == 4 {
        '4'
    } else if d == 5 {
        '5'
    } else if d == 6 {
        '6'
    } else if d == 7 {
        '7'
    } else if d == 8 {
        '8'
    } else {
        '9'
    }
}

/// Appends the decimal notation of `n`.
pub fn push_decimal(out: &mut String, n: usize)
    ensures
        final(out)@ == old(out)@ + decimal(n as nat),
    decreases n,
{
    if n >= 10 {
        push_decimal(out, n / 10);
    }
    push_char(out, digit(n % 10));
    proof {
        if n >= 10 {
            assert(old(out)@ + decimal((n / 10) as nat) + seq![digit_char((n % 10) as nat)]
                =~= old(out)@ + decimal(n as nat));
        } else {
            assert(old(out)@.push(digit_char(n as nat)) =~= old(out)@ + decimal(n as nat));
        }
    }
}

/// The human-readable description of an error.
pub open spec fn error_message(e: Error) -> Seq<char> {
    match e {
        Error::CallbackDataTooLong { bytes } => "telegram callback data is "@ + decimal(
            bytes as nat,
        ) + " bytes, limit is 64"@,
        Error::MessageTooLong { chars, limit } => "telegram message is "@ + decimal(chars as nat)
            + " chars, limit is "@ + decimal(limit as nat),
        Error::Http(s) => "telegram http error: "@ + s@,
        Error::Telegram(s) => "telegram api error: "@ + s@,
        Error::Json(s) => "telegram json error: "@ + s@,
    }
}

/// The kind name of an error.
pub open spec fn error_kind_name(e: Error) -> Seq<char> {
    match e {
        Error::CallbackDataTooLong { .. } => "callback_data_too_long"@,
        Error::MessageTooLong { .. } => "message_too_long"@,
        Error::Http(_) => "http"@,
        Error::Telegram(_) => "telegram"@,
        Error::Json(_) => "json"@,
    }
}

impl Error {
    /// A short, stable name of this error's kind, for logs that must not
    /// carry message text or chat ids.
    pub fn kind(&self) -> (r: &'static str)
        ensures
            r@ == error_kind_name(*self),
    {
        match self {
            Error::CallbackDataTooLong { .. } => "callback_data_too_long",
            Error::MessageTooLong { .. } => "message_too_long",
            Error::Http(_) => "http",
            Error::Telegram(_) => "telegram",
            Error::Json(_) => "json",
        }
    }

    /// The human-readable description of this error.
    pub fn to_string(&self) -> (r: String)
        ensures
            r@ == error_message(*self),
    {
        let mut out = String::new();
        match self {
            Error::CallbackDataTooLong { bytes } => {
                push_str(&mut out, "telegram callback data is ");
                push_decimal(&mut out, *bytes);
                push_str(&mut out, " bytes, limit is 64");
            },
            Error::MessageTooLong { chars, limit } => {
                push_str(&mut out, "telegram message is ");
                push_decimal(&mut out, *chars);
                push_str(&mut out, " chars, limit is ");
                push_decimal(&mut out, *limit);
            },
            Error::Http(s) => {
                push_str(&mut out, "telegram http error: ");
                push_str(&mut out, s.as_str());
            },
            Error::Telegram(s) => {
                push_str(&mut out, "telegram api error: ");
                push_str(&mut out, s.as_str());
            },
            Error::Json(s) => {
                push_str(&mut out, "telegram json error: ");
                push_str(&mut out, s.as_str());
            },
        }
        assert(out@ =~= error_message(*self));
        out
    }
}

/// A JSON encoding or decoding error of `serde_json`.
#[verifier::external_type_specification]
#[verifier::external_body]
pub struct ExJsonError(JsonError);

/// An I/O error of std.
#[verifier::external_type_specification]
#[verifier::external_body]
pub struct ExIoError(IoError);

impl From<JsonError> for Error {
    /// A `Json` error carrying the JSON error's description, its `Display`
    /// text.
    fn from(error: JsonError) -> (r: Self)
        ensures
            r matches Error::Json(s) && to_string_from_display_ensures(&error, s),
    {
        Error::Json(error.to_string())
    }
}

impl FromSpecImpl<JsonError> for Error {
    /// The description is known only through the `Display` relation, which
    /// promises no single text, so no single result is promised here; `from`
    /// states the relation.
    open spec fn obeys_from_spec() -> bool {
        false
    }

    open spec fn from_spec(error: JsonError) -> Self {
        Error::Json(arbitrary())
    }
}

impl From<IoError> for Error {
    /// An `Http` error carrying the I/O error's description, its `Display`
    /// text.
    fn from(error: IoError) -> (r: Self)
        ensures
            r matches Error::Http(s) && to_string_from_display_ensures(&error, s),
    {
        Error::Http(error.to_string())
    }
}

impl FromSpecImpl<IoError> for Error {
    /// The description is known only through the `Display` relation, which
    /// promises no single text, so no single result is promised here; `from`
    /// states the relation.
    open spec fn obeys_from_spec() -> bool {
        false
    }

    open spec fn from_spec(error: IoError) -> Self {
        Error::Http(arbitrary())
    }
}

} // verus!
