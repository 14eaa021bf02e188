//! Error taxonomy. Callers can tell transport failures, provider-reported
//! application errors, locally detected parameter errors, decode failures
//! and local I/O failures apart without parsing message text.

use vstd::prelude::*;

verus! {

/// Everything a call can fail with.
///
/// Application errors carry the provider's numeric code and message
/// verbatim; they are never translated into local semantics. Transport,
/// decode and I/O failures carry the underlying error rendered as text by
/// the surrounding application code.
#[derive(Debug, Clone, PartialEq, Eq)]
pub enum Error {
    /// Connection, TLS, timeout or DNS failure.
    HttpError(String),
    /// A response body did not match the expected schema.
    JsonError(String),
    /// Non-zero envelope code, or a non-success HTTP status; the code and
    /// message come from the provider verbatim.
    ApiError { errno: i32, message: String },
    /// A caller-supplied invariant was violated before any request was sent.
    ParamError(String),
    /// A URL could not be parsed.
    UrlParseError(String),
    /// Local file read or write failure.
    IoError(String),
    /// Anything else.
    Other(String),
}

} // verus!
