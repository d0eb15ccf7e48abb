//! What the strategies read from a response's headers, from the service's
//! JSON API and from the external redirect follower.
use vstd::prelude::*;

use crate::error::Error;
use crate::text::{text_view, trim, trimmed};

verus! {

/// The API that resolves a link's code to its destination.
pub const API_BASE: &'static str = "https://dr-api.encurtador.dev/encurtamentos/";

/// A `String` outcome holds the outcome `v`.
pub open spec fn yields(r: Result<String, Error>, v: Result<Seq<char>, Error>) -> bool {
    match (r, v) {
        (Ok(s), Ok(t)) => s@ == t,
        (Err(e), Err(f)) => e == f,
        _ => false,
    }
}

/// The destination named by a `Location` header: its text; the decoding
/// error when it is not text; nothing found when there is no such header.
pub fn location_target(location: Option<Result<String, Error>>) -> (r: Result<String, Error>)
    ensures
        match location {
            None => r == Err::<String, Error>(Error::NoString),
            Some(answer) => r == answer,
        },
{
    match location {
        None => Err(Error::NoString),
        Some(answer) => answer,
    }
}

/// The API address that resolves the code `slug`.
pub open spec fn api_address(slug: Seq<char>) -> Seq<char> {
    API_BASE@ + slug
}

/// The API address that resolves the code `slug`.
pub fn api_url(slug: &str) -> (r: String)
    ensures
        r@ == api_address(slug@),
{
    let mut u = API_BASE.to_owned();
    u.append(slug);
    u
}

pub open spec fn field_view(f: Result<Option<String>, Error>) -> Result<Option<Seq<char>>, Error> {
    match f {
        Ok(o) => Ok(text_view(o)),
        Err(e) => Err(e),
    }
}

/// What an API answer yields: on a redirect, its `Location` header when that
/// is not blank; on success, the `url` field of the JSON body when it is not
/// blank (or the error reading the body); nothing found otherwise. Both
/// values are trimmed.
pub open spec fn api_outcome(
    status: u16,
    location: Option<Seq<char>>,
    url_field: Result<Option<Seq<char>>, Error>,
) -> Result<Seq<char>, Error> {
    if 300 <= status < 400 && location is Some && trimmed(location->Some_0).len() > 0 {
        Ok(trimmed(location->Some_0))
    } else if 200 <= status < 300 {
        match url_field {
            Err(e) => Err(e),
            Ok(Some(u)) => if trimmed(u).len() > 0 {
                Ok(trimmed(u))
            } else {
                Err(Error::NoString)
            },
            Ok(None) => Err(Error::NoString),
        }
    } else {
        Err(Error::NoString)
    }
}

/// The destination that the API answered: see `api_outcome`. `location` is
/// the `Location` header as text, if present and text; `url_field` what the
/// JSON body's `url` field holds, or the error reading it.
pub fn api_target(
    status: u16,
    location: Option<String>,
    url_field: Result<Option<String>, Error>,
) -> (r: Result<String, Error>)
    ensures
        yields(r, api_outcome(status, text_view(location), field_view(url_field))),
{
    if 300 <= status && status < 400 {
        if let Some(l) = &location {
            let t = trim(l.as_str());
            if !t.as_str().is_empty() {
                return Ok(t);
            }
        }
    }
    if 200 <= status && status < 300 {
        match url_field {
            Err(e) => Err(e),
            Ok(Some(u)) => {
                let t = trim(u.as_str());
                if t.as_str().is_empty() {
                    Err(Error::NoString)
                } else {
                    Ok(t)
                }
            },
            Ok(None) => Err(Error::NoString),
        }
    } else {
        Err(Error::NoString)
    }
}

/// What the external redirect follower's output yields: the effective URL
/// it reported, trimmed, unless it is blank or is where the link started.
pub open spec fn tool_outcome(origin: Seq<char>, output: Seq<char>) -> Result<Seq<char>, Error> {
    let t = trimmed(output);
    if t.len() > 0 && t != origin {
        Ok(t)
    } else {
        Err(Error::NoString)
    }
}

/// The destination that the external redirect follower reported for `origin`.
pub fn tool_target(origin: &str, output: &str) -> (r: Result<String, Error>)
    ensures
        yields(r, tool_outcome(origin@, output@)),
{
    let t = trim(output);
    let o = origin.to_owned();
    if !t.as_str().is_empty() && t != o {
        Ok(t)
    } else {
        Err(Error::NoString)
    }
}

} // verus!
