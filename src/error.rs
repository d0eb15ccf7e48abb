//! The ways a resolution can fail.
use vstd::prelude::*;

verus! {

/// Why a URL could not be expanded.
#[derive(Debug, PartialEq, Eq)]
pub enum Error {
    /// The runtime that drives the network calls could not start.
    StdIo(String),
    /// A response header that should hold a URL is not text.
    ReqwestHeader(String),
    /// The HTTP layer failed: DNS, connection, TLS, timeout or a malformed response.
    Reqwest(String),
    /// The answer arrived but holds no destination.
    NoString,
    /// The input is not a URL of a known shortening service.
    NotRecognized,
    /// The external redirect follower could not be launched.
    ToolUnavailable,
    /// The network layer answered with an event that was not asked for.
    Unknown,
}

impl Error {
    /// A short description, as the error would be displayed.
    pub fn message(&self) -> (r: &'static str) {
        match self {
            Error::StdIo(_) => "tokio runtime error",
            Error::ReqwestHeader(_) => "reqwest header error",
            Error::Reqwest(_) => "reqwest error",
            Error::NoString => "no string",
            Error::NotRecognized => "not a known short url",
            Error::ToolUnavailable => "redirect tool unavailable",
            Error::Unknown => "unknown error",
        }
    }
}

} // verus!
