//! The status vocabulary: the closed table of status codes the server
//! can emit, the code and message of each entry, the reverse lookup
//! from a numeric code, and the fallback entry used when nothing more
//! specific applies.
use vstd::prelude::*;

use crate::strutil::{spec_dec, u64_to_dec};

verus! {

broadcast use vstd::string::group_string_axioms;

/// The closed table of status codes.  Each variant is named after its
/// numeric code.
#[derive(Debug, PartialEq, Eq, Structural, Clone, Copy)]
pub enum HttpStatus {
    _100,
    _101,
    _102,
    _200,
    _201,
    _202,
    _203,
    _204,
    _205,
    _300,
    _301,
    _302,
    _400,
    _401,
    _403,
    _404,
    _405,
    _406,
    _408,
    _409,
    _410,
    _500,
    _501,
    _502,
    _503,
    _504,
    _507,
    _511,
    _599,
}

/// The numeric code of each table entry.
pub open spec fn spec_status_code(s: HttpStatus) -> u16 {
    match s {
        HttpStatus::_100 => 100,
        HttpStatus::_101 => 101,
        HttpStatus::_102 => 102,
        HttpStatus::_200 => 200,
        HttpStatus::_201 => 201,
        HttpStatus::_202 => 202,
        HttpStatus::_203 => 203,
        HttpStatus::_204 => 204,
        HttpStatus::_205 => 205,
        HttpStatus::_300 => 300,
        HttpStatus::_301 => 301,
        HttpStatus::_302 => 302,
        HttpStatus::_400 => 400,
        HttpStatus::_401 => 401,
        HttpStatus::_403 => 403,
        HttpStatus::_404 => 404,
        HttpStatus::_405 => 405,
        HttpStatus::_406 => 406,
        HttpStatus::_408 => 408,
        HttpStatus::_409 => 409,
        HttpStatus::_410 => 410,
        HttpStatus::_500 => 500,
        HttpStatus::_501 => 501,
        HttpStatus::_502 => 502,
        HttpStatus::_503 => 503,
        HttpStatus::_504 => 504,
        HttpStatus::_507 => 507,
        HttpStatus::_511 => 511,
        HttpStatus::_599 => 599,
    }
}

/// The fixed human-readable message of each table entry.
pub open spec fn spec_status_message(s: HttpStatus) -> Seq<char> {
    match s {
        HttpStatus::_100 => "Continue"@,
        HttpStatus::_101 => "Switching Protocols"@,
        HttpStatus::_102 => "Processing"@,
        HttpStatus::_200 => "OK"@,
        HttpStatus::_201 => "Created"@,
        HttpStatus::_202 => "Accepted"@,
        HttpStatus::_203 => "Non-Authoritative Information"@,
        HttpStatus::_204 => "No Content"@,
        HttpStatus::_205 => "Reset Content"@,
        HttpStatus::_300 => "Multiple Choices"@,
        HttpStatus::_301 => "Moved Permanently"@,
        HttpStatus::_302 => "Found"@,
        HttpStatus::_400 => "Bad Request"@,
        HttpStatus::_401 => "Unauthorized"@,
        HttpStatus::_403 => "Forbidden"@,
        HttpStatus::_404 => "Not Found"@,
        HttpStatus::_405 => "Method Not Allowed"@,
        HttpStatus::_406 => "Not Acceptable"@,
        HttpStatus::_408 => "Request Timeout"@,
        HttpStatus::_409 => "Conflict"@,
        HttpStatus::_410 => "Gone"@,
        HttpStatus::_500 => "Internal Server Error"@,
        HttpStatus::_501 => "Not Implemented"@,
        HttpStatus::_502 => "Bad Gateway"@,
        HttpStatus::_503 => "Service Unavailable"@,
        HttpStatus::_504 => "Gateway Timeout"@,
        HttpStatus::_507 => "Insufficient Storage"@,
        HttpStatus::_511 => "Network Authentication Required"@,
        HttpStatus::_599 => "Network Connect Timeout Error"@,
    }
}

/// The table entry a numeric code denotes, if any.
pub open spec fn spec_status_from_code(value: u16) -> Option<HttpStatus> {
    match value {
        100u16 => Some(HttpStatus::_100),
        101u16 => Some(HttpStatus::_101),
        102u16 => Some(HttpStatus::_102),
        200u16 => Some(HttpStatus::_200),
        201u16 => Some(HttpStatus::_201),
        202u16 => Some(HttpStatus::_202),
        203u16 => Some(HttpStatus::_203),
        204u16 => Some(HttpStatus::_204),
        205u16 => Some(HttpStatus::_205),
        300u16 => Some(HttpStatus::_300),
        301u16 => Some(HttpStatus::_301),
        302u16 => Some(HttpStatus::_302),
        400u16 => Some(HttpStatus::_400),
        401u16 => Some(HttpStatus::_401),
        403u16 => Some(HttpStatus::_403),
        404u16 => Some(HttpStatus::_404),
        405u16 => Some(HttpStatus::_405),
        406u16 => Some(HttpStatus::_406),
        408u16 => Some(HttpStatus::_408),
        409u16 => Some(HttpStatus::_409),
        410u16 => Some(HttpStatus::_410),
        500u16 => Some(HttpStatus::_500),
        501u16 => Some(HttpStatus::_501),
        502u16 => Some(HttpStatus::_502),
        503u16 => Some(HttpStatus::_503),
        504u16 => Some(HttpStatus::_504),
        507u16 => Some(HttpStatus::_507),
        511u16 => Some(HttpStatus::_511),
        599u16 => Some(HttpStatus::_599),
        _ => None,
    }
}

/// The three-character color selector used when a status is rendered
/// for a terminal: one color per code class.
pub open spec fn spec_status_color(code: u16) -> Seq<char> {
    if 100 <= code <= 199 {
        "34"@
    } else if 200 <= code <= 299 {
        "32"@
    } else if 300 <= code <= 399 {
        "35"@
    } else if 400 <= code <= 499 {
        "33"@
    } else if 500 <= code <= 599 {
        "31"@
    } else {
        "0"@
    }
}

/// A status rendered for a terminal: the code wrapped in a color
/// escape, a space, then the message.
pub open spec fn spec_status_styled(s: HttpStatus) -> Seq<char> {
    "\x1b["@ + spec_status_color(spec_status_code(s)) + "m"@ + spec_dec(spec_status_code(s) as nat)
        + "\x1b[0m"@ + " "@ + spec_status_message(s)
}

impl HttpStatus {
    /// The numeric code of this entry.
    pub fn code(&self) -> (r: u16)
        ensures
            r == spec_status_code(*self),
    {
        match self {
            HttpStatus::_100 => 100,
            HttpStatus::_101 => 101,
            HttpStatus::_102 => 102,
            HttpStatus::_200 => 200,
            HttpStatus::_201 => 201,
            HttpStatus::_202 => 202,
            HttpStatus::_203 => 203,
            HttpStatus::_204 => 204,
            HttpStatus::_205 => 205,
            HttpStatus::_300 => 300,
            HttpStatus::_301 => 301,
            HttpStatus::_302 => 302,
            HttpStatus::_400 => 400,
            HttpStatus::_401 => 401,
            HttpStatus::_403 => 403,
            HttpStatus::_404 => 404,
            HttpStatus::_405 => 405,
            HttpStatus::_406 => 406,
            HttpStatus::_408 => 408,
            HttpStatus::_409 => 409,
            HttpStatus::_410 => 410,
            HttpStatus::_500 => 500,
            HttpStatus::_501 => 501,
            HttpStatus::_502 => 502,
            HttpStatus::_503 => 503,
            HttpStatus::_504 => 504,
            HttpStatus::_507 => 507,
            HttpStatus::_511 => 511,
            HttpStatus::_599 => 599,
        }
    }

    /// The fixed message of this entry.
    pub fn message(&self) -> (r: &'static str)
        ensures
            r@ == spec_status_message(*self),
    {
        match self {
            HttpStatus::_100 => "Continue",
            HttpStatus::_101 => "Switching Protocols",
            HttpStatus::_102 => "Processing",
            HttpStatus::_200 => "OK",
            HttpStatus::_201 => "Created",
            HttpStatus::_202 => "Accepted",
            HttpStatus::_203 => "Non-Authoritative Information",
            HttpStatus::_204 => "No Content",
            HttpStatus::_205 => "Reset Content",
            HttpStatus::_300 => "Multiple Choices",
            HttpStatus::_301 => "Moved Permanently",
            HttpStatus::_302 => "Found",
            HttpStatus::_400 => "Bad Request",
            HttpStatus::_401 => "Unauthorized",
            HttpStatus::_403 => "Forbidden",
            HttpStatus::_404 => "Not Found",
            HttpStatus::_405 => "Method Not Allowed",
            HttpStatus::_406 => "Not Acceptable",
            HttpStatus::_408 => "Request Timeout",
            HttpStatus::_409 => "Conflict",
            HttpStatus::_410 => "Gone",
            HttpStatus::_500 => "Internal Server Error",
            HttpStatus::_501 => "Not Implemented",
            HttpStatus::_502 => "Bad Gateway",
            HttpStatus::_503 => "Service Unavailable",
            HttpStatus::_504 => "Gateway Timeout",
            HttpStatus::_507 => "Insufficient Storage",
            HttpStatus::_511 => "Network Authentication Required",
            HttpStatus::_599 => "Network Connect Timeout Error",
        }
    }

    /// The table entry a numeric code denotes; `None` for a code
    /// outside the table.
    pub fn from_u16(value: u16) -> (r: Option<HttpStatus>)
        ensures
            r == spec_status_from_code(value),
    {
        match value {
            100u16 => Some(HttpStatus::_100),
            101u16 => Some(HttpStatus::_101),
            102u16 => Some(HttpStatus::_102),
            200u16 => Some(HttpStatus::_200),
            201u16 => Some(HttpStatus::_201),
            202u16 => Some(HttpStatus::_202),
            203u16 => Some(HttpStatus::_203),
            204u16 => Some(HttpStatus::_204),
            205u16 => Some(HttpStatus::_205),
            300u16 => Some(HttpStatus::_300),
            301u16 => Some(HttpStatus::_301),
            302u16 => Some(HttpStatus::_302),
            400u16 => Some(HttpStatus::_400),
            401u16 => Some(HttpStatus::_401),
            403u16 => Some(HttpStatus::_403),
            404u16 => Some(HttpStatus::_404),
            405u16 => Some(HttpStatus::_405),
            406u16 => Some(HttpStatus::_406),
            408u16 => Some(HttpStatus::_408),
            409u16 => Some(HttpStatus::_409),
            410u16 => Some(HttpStatus::_410),
            500u16 => Some(HttpStatus::_500),
            501u16 => Some(HttpStatus::_501),
            502u16 => Some(HttpStatus::_502),
            503u16 => Some(HttpStatus::_503),
            504u16 => Some(HttpStatus::_504),
            507u16 => Some(HttpStatus::_507),
            511u16 => Some(HttpStatus::_511),
            599u16 => Some(HttpStatus::_599),
            _ => None,
        }
    }

    /// The table entry a numeric code denotes; the same lookup as
    /// [`HttpStatus::from_u16`].
    pub fn new(value: u16) -> (r: Option<HttpStatus>)
        ensures
            r == spec_status_from_code(value),
    {
        Self::from_u16(value)
    }

    /// A bare response for this status: the fixed version token, the
    /// status line's code and message, then an empty header block.
    pub fn get_as_response(&self) -> (r: String)
        ensures
            r@ == "HTTP/1.1 "@ + spec_dec(spec_status_code(*self) as nat) + " "@
                + spec_status_message(*self) + "\r\n\r\n"@,
    {
        let mut s = String::from_str("HTTP/1.1 ");
        let digits = u64_to_dec(self.code() as u64);
        s.append(digits.as_str());
        s.append(" ");
        s.append(self.message());
        s.append("\r\n\r\n");
        s
    }

    /// The status rendered for a terminal, with the code wrapped in a
    /// color escape chosen by its class.
    pub fn styled(&self) -> (r: String)
        ensures
            r@ == spec_status_styled(*self),
    {
        let mut s = String::from_str("\x1b[");
        let code = self.code();
        let color: &'static str = if 100 <= code && code <= 199 {
            "34"
        } else if 200 <= code && code <= 299 {
            "32"
        } else if 300 <= code && code <= 399 {
            "35"
        } else if 400 <= code && code <= 499 {
            "33"
        } else if 500 <= code && code <= 599 {
            "31"
        } else {
            "0"
        };
        s.append(color);
        s.append("m");
        let digits = u64_to_dec(code as u64);
        s.append(digits.as_str());
        s.append("\x1b[0m");
        s.append(" ");
        s.append(self.message());
        s
    }
}

impl Default for HttpStatus {
    /// The fallback entry, substituted whenever no more specific
    /// status can be determined.
    fn default() -> (r: Self)
        ensures
            r == HttpStatus::_501,
    {
        HttpStatus::_501
    }
}

/// Lookup by code is the exact inverse of reading the code: every
/// entry's own code resolves back to that entry.
pub proof fn lemma_status_round_trip(s: HttpStatus)
    ensures
        spec_status_from_code(spec_status_code(s)) == Some(s),
{
}

/// A code equal to none of the table's codes resolves to `None`.
pub proof fn lemma_status_from_code_none(value: u16)
    requires
        spec_status_from_code(value) is None,
    ensures
        forall|s: HttpStatus| spec_status_code(s) != value,
{
    assert forall|s: HttpStatus| spec_status_code(s) != value by {
        if spec_status_code(s) == value {
            assert(spec_status_from_code(spec_status_code(s)) == Some(s));
        }
    }
}

} // verus!
