//! The request method vocabulary: the closed set of methods the server
//! accepts, with the exact token mapping in both directions.
use vstd::prelude::*;

use crate::strutil::str_eq;

verus! {

broadcast use vstd::string::group_string_axioms;

/// The closed set of request methods.
#[derive(Debug, PartialEq, Eq, Structural, Clone, Copy)]
pub enum HttpMethod {
    GET,
    POST,
    PUT,
    DELETE,
}

/// The wire token of each method.
pub open spec fn spec_method_token(m: HttpMethod) -> Seq<char> {
    match m {
        HttpMethod::GET => "GET"@,
        HttpMethod::POST => "POST"@,
        HttpMethod::PUT => "PUT"@,
        HttpMethod::DELETE => "DELETE"@,
    }
}

/// The method a token denotes, if any.
pub open spec fn spec_parse_method(s: Seq<char>) -> Option<HttpMethod> {
    if s == "GET"@ {
        Some(HttpMethod::GET)
    } else if s == "POST"@ {
        Some(HttpMethod::POST)
    } else if s == "PUT"@ {
        Some(HttpMethod::PUT)
    } else if s == "DELETE"@ {
        Some(HttpMethod::DELETE)
    } else {
        None
    }
}

impl HttpMethod {
    /// The token for this method.
    pub fn as_str(&self) -> (r: &'static str)
        ensures
            r@ == spec_method_token(*self),
    {
        match self {
            HttpMethod::GET => "GET",
            HttpMethod::POST => "POST",
            HttpMethod::PUT => "PUT",
            HttpMethod::DELETE => "DELETE",
        }
    }

    /// The method a token denotes; `None` for any token outside the set.
    pub fn from_str(method: &str) -> (r: Option<HttpMethod>)
        ensures
            r == spec_parse_method(method@),
    {
        if str_eq(method, "GET") {
            Some(HttpMethod::GET)
        } else if str_eq(method, "POST") {
            Some(HttpMethod::POST)
        } else if str_eq(method, "PUT") {
            Some(HttpMethod::PUT)
        } else if str_eq(method, "DELETE") {
            Some(HttpMethod::DELETE)
        } else {
            None
        }
    }
}

impl Default for HttpMethod {
    /// The method assumed when none is given.
    fn default() -> (r: Self)
        ensures
            r == HttpMethod::GET,
    {
        HttpMethod::GET
    }
}

/// Parsing is the exact inverse of rendering: every method's own token
/// parses back to that method.
pub proof fn lemma_method_round_trip(m: HttpMethod)
    ensures
        spec_parse_method(spec_method_token(m)) == Some(m),
{
    reveal_strlit("GET");
    reveal_strlit("POST");
    reveal_strlit("PUT");
    reveal_strlit("DELETE");
    assert("GET"@.len() == 3);
    assert("POST"@.len() == 4);
    assert("PUT"@.len() == 3);
    assert("DELETE"@.len() == 6);
    assert("GET"@[0] == 'G');
    assert("PUT"@[0] == 'P');
}

/// A token equal to none of the four method tokens parses to `None`.
pub proof fn lemma_method_parse_none(s: Seq<char>)
    requires
        s != "GET"@,
        s != "POST"@,
        s != "PUT"@,
        s != "DELETE"@,
    ensures
        spec_parse_method(s) is None,
{
}

} // verus!
