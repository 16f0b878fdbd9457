//! Inline keyboards attached to messages.

use vstd::prelude::*;
use vstd::string::to_string_from_display_ensures;
use vstd::utf8::encode_utf8;
use crate::error::Error;
use crate::limits::CALLBACK_DATA_MAX_BYTES;

verus! {

broadcast use vstd::string::group_string_axioms;

/// One button of an inline keyboard: it either opens a URL or sends callback
/// data of at most `CALLBACK_DATA_MAX_BYTES` bytes.
#[derive(Debug, PartialEq, Eq)]
pub struct InlineKeyboardButton {
    text: String,
    url: Option<String>,
    callback_data: Option<String>,
}

/// The callback data of a button is within Telegram's byte limit.
pub open spec fn callback_data_fits(data: Seq<char>) -> bool {
    encode_utf8(data).len() <= CALLBACK_DATA_MAX_BYTES
}

impl InlineKeyboardButton {
    #[verifier::type_invariant]
    spec fn callback_data_within_limit(self) -> bool {
        self.callback_data matches Some(d) ==> callback_data_fits(d@)
    }

    /// The button label.
    pub closed spec fn spec_text(&self) -> Seq<char> {
        self.text@
    }

    /// The URL the button opens, if any.
    pub closed spec fn spec_url(&self) -> Option<Seq<char>> {
        match self.url {
            Some(u) => Some(u@),
            None => None,
        }
    }

    /// The callback data the button sends, if any.
    pub closed spec fn spec_callback_data(&self) -> Option<Seq<char>> {
        match self.callback_data {
            Some(d) => Some(d@),
            None => None,
        }
    }

    /// A button that opens `url`.
    pub fn url(text: impl core::fmt::Display, url: impl core::fmt::Display) -> (r: Self)
        ensures
            exists|t: String| #![trigger to_string_from_display_ensures(&text, t)]
                to_string_from_display_ensures(&text, t) && r.spec_text() == t@,
            exists|u: String| #![trigger to_string_from_display_ensures(&url, u)]
                to_string_from_display_ensures(&url, u) && r.spec_url() == Some(u@),
            r.spec_callback_data() is None,
    {
        let t = text.to_string();
        let u = url.to_string();
        InlineKeyboardButton { text: t, url: Some(u), callback_data: None }
    }

    /// A button that sends `data` back; refused with `CallbackDataTooLong`
    /// when `data` is longer than `CALLBACK_DATA_MAX_BYTES` bytes.
    pub fn callback(text: impl core::fmt::Display, data: impl core::fmt::Display) -> (r: Result<
        Self,
        Error,
    >)
        ensures
            exists|d: String| #![trigger to_string_from_display_ensures(&data, d)]
                to_string_from_display_ensures(&data, d) && if callback_data_fits(d@) {
                    r matches Ok(b) && b.spec_callback_data() == Some(d@) && b.spec_url() is None
                        && exists|t: String| #![trigger to_string_from_display_ensures(&text, t)]
                        to_string_from_display_ensures(&text, t) && b.spec_text() == t@
                } else {
                    r == Err::<Self, Error>(
                        Error::CallbackDataTooLong { bytes: encode_utf8(d@).len() as usize },
                    )
                },
    {
        let d = data.to_string();
        let bytes = d.as_str().as_bytes().len();
        if bytes <= CALLBACK_DATA_MAX_BYTES {
            let t = text.to_string();
            Ok(InlineKeyboardButton { text: t, url: None, callback_data: Some(d) })
        } else {
            Err(Error::CallbackDataTooLong { bytes })
        }
    }

    /// A button that opens `url`, both given as string slices.
    pub fn url_str(text: &str, url: &str) -> (r: Self)
        ensures
            r.spec_text() == text@,
            r.spec_url() == Some(url@),
            r.spec_callback_data() is None,
    {
        InlineKeyboardButton {
            text: String::from_str(text),
            url: Some(String::from_str(url)),
            callback_data: None,
        }
    }

    /// A button that sends `data` back, both given as string slices; refused
    /// with `CallbackDataTooLong` when `data` is longer than
    /// `CALLBACK_DATA_MAX_BYTES` bytes.
    pub fn callback_str(text: &str, data: &str) -> (r: Result<Self, Error>)
        ensures
            if callback_data_fits(data@) {
                r matches Ok(b) && b.spec_text() == text@ && b.spec_url() is None
                    && b.spec_callback_data() == Some(data@)
            } else {
                r == Err::<Self, Error>(
                    Error::CallbackDataTooLong { bytes: encode_utf8(data@).len() as usize },
                )
            },
    {
        let bytes = data.as_bytes().len();
        if bytes <= CALLBACK_DATA_MAX_BYTES {
            Ok(InlineKeyboardButton {
                text: String::from_str(text),
                url: None,
                callback_data: Some(String::from_str(data)),
            })
        } else {
            Err(Error::CallbackDataTooLong { bytes })
        }
    }

    /// The button label.
    pub fn text(&self) -> (r: &str)
        ensures
            r@ == self.spec_text(),
    {
        self.text.as_str()
    }

    /// The URL the button opens, if any.
    pub fn link_url(&self) -> (r: Option<&str>)
        ensures
            match self.spec_url() {
                Some(u) => r is Some && r->0@ == u,
                None => r is None,
            },
    {
        match &self.url {
            Some(u) => Some(u.as_str()),
            None => None,
        }
    }

    /// The callback data the button sends, if any; it never exceeds
    /// `CALLBACK_DATA_MAX_BYTES` bytes.
    pub fn callback_data(&self) -> (r: Option<&str>)
        ensures
            match self.spec_callback_data() {
                Some(d) => r is Some && r->0@ == d && callback_data_fits(d),
                None => r is None,
            },
    {
        proof {
            use_type_invariant(self);
        }
        match &self.callback_data {
            Some(d) => Some(d.as_str()),
            None => None,
        }
    }
}

impl Clone for InlineKeyboardButton {
    fn clone(&self) -> (r: Self)
        ensures
            r == *self,
    {
        proof {
            use_type_invariant(self);
        }
        InlineKeyboardButton {
            text: self.text.clone(),
            url: match &self.url {
                Some(u) => Some(u.clone()),
                None => None,
            },
            callback_data: match &self.callback_data {
                Some(d) => Some(d.clone()),
                None => None,
            },
        }
    }
}

/// An inline keyboard: rows of buttons.
#[derive(Clone, Debug, PartialEq, Eq)]
pub struct InlineKeyboardMarkup {
    pub inline_keyboard: Vec<Vec<InlineKeyboardButton>>,
}

impl InlineKeyboardMarkup {
    /// A keyboard of one row holding one button.
    pub fn single(button: InlineKeyboardButton) -> (r: Self)
        ensures
            r.inline_keyboard@.len() == 1,
            r.inline_keyboard@[0]@ == seq![button],
    {
        let row = vec![button];
        InlineKeyboardMarkup { inline_keyboard: vec![row] }
    }
}

} // verus!
