//! The errors of the library.
use vstd::prelude::*;

use crate::locale::Locale;
use crate::loader::error::Error as LoadingError;
use vstd::string::*;

verus! {

/// What can go wrong when a message is looked up or formatted.
#[derive(Debug, Clone)]
pub enum Error {
    MessageNotFound(Locale, String, String),
    InvalidLocale(String),
    FormattingError(String),
    LoadingError(LoadingError),
}

impl Error {
    /// The message that describes the error.
    pub open spec fn text(&self) -> Seq<char> {
        match self {
            Error::MessageNotFound(locale, domain, id) => "message not found: message `'"@ + id@
                + "'` could not be found in `'"@ + domain@ + "'` domain for `'"@ + locale.code()
                + "'` locale."@,
            Error::InvalidLocale(locale) => "locale: invalid locale, expected a valid locale code but found `'"@
                + locale@ + "'`."@,
            Error::FormattingError(detail) => detail@,
            Error::LoadingError(inner) => inner.text(),
        }
    }

    /// The message that describes the error.
    pub fn to_string(&self) -> (r: String)
        ensures
            r@ == self.text(),
    {
        let mut r = String::new();
        match self {
            Error::MessageNotFound(locale, domain, id) => {
                r.append("message not found: message `'");
                r.append(id.as_str());
                r.append("'` could not be found in `'");
                r.append(domain.as_str());
                r.append("'` domain for `'");
                r.append(locale.code_str());
                r.append("'` locale.");
            },
            Error::InvalidLocale(locale) => {
                r.append("locale: invalid locale, expected a valid locale code but found `'");
                r.append(locale.as_str());
                r.append("'`.");
            },
            Error::FormattingError(detail) => r.append(detail.as_str()),
            Error::LoadingError(inner) => r = inner.to_string(),
        }
        r
    }
}

} // verus!
