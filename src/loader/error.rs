//! Errors met while catalogues are loaded from files.
use vstd::prelude::*;
use vstd::string::*;

verus! {

/// A loading failure, with the text of its cause.
#[derive(Debug, Clone)]
pub enum Error {
    FailedToReadDirectory(String),
    FailedToReadFile(String, String),
    InvalidFilenameFormat(String),
    FailedToParseFile(String),
    Custom(String),
}

impl Error {
    /// The message that describes the error.
    pub open spec fn text(&self) -> Seq<char> {
        match self {
            Error::FailedToReadDirectory(cause) => "unreadable node: directory, "@ + cause@ + "."@,
            Error::FailedToReadFile(node, cause) => "unreadable node: file `"@ + node@ + "`, "@
                + cause@ + "."@,
            Error::InvalidFilenameFormat(detail) => detail@,
            Error::FailedToParseFile(cause) => cause@ + "."@,
            Error::Custom(detail) => detail@,
        }
    }

    /// The message that describes the error.
    pub fn to_string(&self) -> (r: String)
        ensures
            r@ == self.text(),
    {
        let mut r = String::new();
        match self {
            Error::FailedToReadDirectory(cause) => {
                r.append("unreadable node: directory, ");
                r.append(cause.as_str());
                r.append(".");
            },
            Error::FailedToReadFile(node, cause) => {
                r.append("unreadable node: file `");
                r.append(node.as_str());
                r.append("`, ");
                r.append(cause.as_str());
                r.append(".");
            },
            Error::InvalidFilenameFormat(detail) => r.append(detail.as_str()),
            Error::FailedToParseFile(cause) => {
                r.append(cause.as_str());
                r.append(".");
            },
            Error::Custom(detail) => r.append(detail.as_str()),
        }
        r
    }
}

} // verus!
