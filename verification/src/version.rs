//! The protocol version vocabulary: the closed set of versions the
//! server speaks, with the exact wire-token mapping in both directions.
use vstd::prelude::*;

use crate::strutil::str_eq;

verus! {

broadcast use vstd::string::group_string_axioms;

/// The closed set of protocol versions.
#[derive(Debug, PartialEq, Eq, Structural, Clone, Copy)]
pub enum HttpVersion {
    Http1_0,
    Http1_1,
    Http2_0,
}

/// The wire token of each version.
pub open spec fn spec_version_token(v: HttpVersion) -> Seq<char> {
    match v {
        HttpVersion::Http1_0 => "HTTP/1.0"@,
        HttpVersion::Http1_1 => "HTTP/1.1"@,
        HttpVersion::Http2_0 => "HTTP/2.0"@,
    }
}

/// The version a token denotes, if any.
pub open spec fn spec_parse_version(s: Seq<char>) -> Option<HttpVersion> {
    if s == "HTTP/1.0"@ {
        Some(HttpVersion::Http1_0)
    } else if s == "HTTP/1.1"@ {
        Some(HttpVersion::Http1_1)
    } else if s == "HTTP/2.0"@ {
        Some(HttpVersion::Http2_0)
    } else {
        None
    }
}

impl HttpVersion {
    /// The wire token for this version.
    pub fn as_str(&self) -> (r: &'static str)
        ensures
            r@ == spec_version_token(*self),
    {
        match self {
            HttpVersion::Http1_0 => "HTTP/1.0",
            HttpVersion::Http1_1 => "HTTP/1.1",
            HttpVersion::Http2_0 => "HTTP/2.0",
        }
    }

    /// The version a token denotes; `None` for any token outside the set.
    pub fn from_str(version: &str) -> (r: Option<HttpVersion>)
        ensures
            r == spec_parse_version(version@),
    {
        if str_eq(version, "HTTP/1.0") {
            Some(HttpVersion::Http1_0)
        } else if str_eq(version, "HTTP/1.1") {
            Some(HttpVersion::Http1_1)
        } else if str_eq(version, "HTTP/2.0") {
            Some(HttpVersion::Http2_0)
        } else {
            None
        }
    }
}

impl Default for HttpVersion {
    /// The version assumed when none is given.
    fn default() -> (r: Self)
        ensures
            r == HttpVersion::Http1_1,
    {
        HttpVersion::Http1_1
    }
}

/// Parsing is the exact inverse of rendering: every version's own token
/// parses back to that version.
pub proof fn lemma_version_round_trip(v: HttpVersion)
    ensures
        spec_parse_version(spec_version_token(v)) == Some(v),
{
    reveal_strlit("HTTP/1.0");
    reveal_strlit("HTTP/1.1");
    reveal_strlit("HTTP/2.0");
    assert("HTTP/1.0"@[5] == '1');
    assert("HTTP/1.0"@[7] == '0');
    assert("HTTP/1.1"@[5] == '1');
    assert("HTTP/1.1"@[7] == '1');
    assert("HTTP/2.0"@[5] == '2');
    assert("HTTP/2.0"@[7] == '0');
}

/// A token equal to none of the three version tokens parses to `None`.
pub proof fn lemma_version_parse_none(s: Seq<char>)
    requires
        s != "HTTP/1.0"@,
        s != "HTTP/1.1"@,
        s != "HTTP/2.0"@,
    ensures
        spec_parse_version(s) is None,
{
}

} // verus!
