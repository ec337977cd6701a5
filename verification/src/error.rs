//! The library's error type and its user-facing text.

use vstd::prelude::*;

verus! {

/// Everything that can go wrong in GleanMark. Causes that come from outside
/// libraries (the vector store, I/O, JSON, tasks) carry their rendered text.
#[derive(Debug, Clone, PartialEq, Eq)]
pub enum Error {
    Qdrant(String),
    Embedding(String),
    Io(String),
    Json(String),
    Join(String),
    NotFound(String),
    Gateway(String),
    /// The cloud gateway denied a save because a plan limit was hit (HTTP 402
    /// with `code: "quota_exceeded"`). `message` is the gateway's
    /// user-presentable text, so the error text is already friendly.
    QuotaExceeded { message: String, used: Option<u64>, limit: Option<u64> },
    Auth(String),
    Other(String),
}

/// The user-facing text of an error with the given variant prefix and detail.
pub open spec fn error_text(e: Error) -> Seq<char> {
    match e {
        Error::Qdrant(s) => "Qdrant error: "@ + s@,
        Error::Embedding(s) => "Embedding error: "@ + s@,
        Error::Io(s) => "IO error: "@ + s@,
        Error::Json(s) => "JSON error: "@ + s@,
        Error::Join(s) => "Join error: "@ + s@,
        Error::NotFound(s) => "Bookmark not found: "@ + s@,
        Error::Gateway(s) => "Gateway error: "@ + s@,
        Error::QuotaExceeded { message, .. } => message@,
        Error::Auth(s) => "Auth error: "@ + s@,
        Error::Other(s) => s@,
    }
}

fn prefixed(prefix: &str, detail: &String) -> (r: String)
    ensures
        r@ == prefix@ + detail@,
{
    let r = String::from_str(prefix);
    r.concat(detail.as_str())
}

impl Error {
    /// The user-facing text of the error (its display form).
    pub fn message(&self) -> (r: String)
        ensures
            r@ == error_text(*self),
    {
        match self {
            Error::Qdrant(s) => prefixed("Qdrant error: ", s),
            Error::Embedding(s) => prefixed("Embedding error: ", s),
            Error::Io(s) => prefixed("IO error: ", s),
            Error::Json(s) => prefixed("JSON error: ", s),
            Error::Join(s) => prefixed("Join error: ", s),
            Error::NotFound(s) => prefixed("Bookmark not found: ", s),
            Error::Gateway(s) => prefixed("Gateway error: ", s),
            Error::QuotaExceeded { message, .. } => message.clone(),
            Error::Auth(s) => prefixed("Auth error: ", s),
            Error::Other(s) => s.clone(),
        }
    }
}

} // verus!
