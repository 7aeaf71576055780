//! The request-line parser: the first line of a connection's text is
//! split on whitespace, and the first three tokens must be a known
//! method, a path, and a known version.  Anything else is no match.
use vstd::prelude::*;

use crate::method::{spec_parse_method, HttpMethod};
use crate::text::{spec_tokens, split_tokens};
use crate::version::{spec_parse_version, HttpVersion};

verus! {

/// What a request line denotes: its first three whitespace-separated
/// tokens as (method, path, version), provided the first parses as a
/// method and the third as a version; `None` otherwise.  Tokens past
/// the third are ignored.
pub open spec fn spec_parse_request_line(line: Seq<char>) -> Option<
    (HttpMethod, Seq<char>, HttpVersion),
> {
    let toks = spec_tokens(line);
    if toks.len() >= 3 {
        match (spec_parse_method(toks[0]), spec_parse_version(toks[2])) {
            (Some(m), Some(v)) => Some((m, toks[1], v)),
            _ => None,
        }
    } else {
        None
    }
}

/// Parses a request line into its method, path and version; `None`
/// when fewer than three tokens are present or a token is not in its
/// vocabulary.
pub fn match_request_line(request_line: &str) -> (r: Option<(HttpMethod, String, HttpVersion)>)
    ensures
        (r is None) == (spec_parse_request_line(request_line@) is None),
        r matches Some(t) ==> spec_parse_request_line(request_line@) == Some((t.0, t.1@, t.2)),
{
    let mut toks = split_tokens(request_line);
    if toks.len() < 3 {
        return None;
    }
    let method = match HttpMethod::from_str(toks[0].as_str()) {
        Some(m) => m,
        None => {
            return None;
        },
    };
    let version = match HttpVersion::from_str(toks[2].as_str()) {
        Some(v) => v,
        None => {
            return None;
        },
    };
    let url = toks.remove(1);
    Some((method, url, version))
}

} // verus!
