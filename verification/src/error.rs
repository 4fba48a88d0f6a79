//! Critical errors: the ones after which loading cannot go on.

use vstd::prelude::*;
use vstd::string::StringExecFns;

verus! {

/// A critical error.
///
/// Anything that concerns a single object only (a missing field, an unknown
/// kind, an unexpected version) is not an error: the object is dropped or kept
/// as unknown, and loading goes on.
#[derive(Debug)]
pub enum Error {
    /// The source of the data could not be read; the text is the reader's message.
    IoError(String),
    /// The sequence of events is not a tree of nodes; the text says why.
    ParseError(String),
    /// Any other failure that stops loading.
    UnclassifiedCritical(String),
    /// The data is of a version that cannot be loaded.
    UnsupportedVersion(String),
}

pub type Result<T> = std::result::Result<T, Error>;

/// The text of an error: what kind it is, and its message.
pub open spec fn text_of(e: Error) -> Seq<char> {
    match e {
        Error::IoError(msg) => "I/O error: "@ + msg@,
        Error::ParseError(msg) => "Parse error: "@ + msg@,
        Error::UnclassifiedCritical(msg) => "Unclassified critical error: "@ + msg@,
        Error::UnsupportedVersion(msg) => "Unsupported version: "@ + msg@,
    }
}

impl Error {
    /// The text of the error, for people to read.
    pub fn to_text(&self) -> (r: String)
        ensures
            r@ == text_of(*self),
    {
        match self {
            Error::IoError(msg) => "I/O error: ".to_owned().concat(msg.as_str()),
            Error::ParseError(msg) => "Parse error: ".to_owned().concat(msg.as_str()),
            Error::UnclassifiedCritical(msg) => "Unclassified critical error: ".to_owned().concat(
                msg.as_str(),
            ),
            Error::UnsupportedVersion(msg) => "Unsupported version: ".to_owned().concat(msg.as_str()),
        }
    }

    /// The error of a sequence of events that stops before its nodes are closed.
    pub fn truncated() -> (e: Error)
        ensures
            e.is_truncated(),
    {
        Error::ParseError("unexpected end of the event stream".to_owned())
    }

    /// Whether this is the error that `truncated` makes.
    pub open spec fn is_truncated(&self) -> bool {
        self matches Error::ParseError(msg) && msg@ == "unexpected end of the event stream"@
    }
}

} // verus!
