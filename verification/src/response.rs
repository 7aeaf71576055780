//! The response carrier and its serialization onto the wire: a status
//! line, the fixed header block (date, server, content length, content
//! type, connection), a blank line, then the body.
use vstd::prelude::*;

use crate::status::{spec_status_code, spec_status_message, HttpStatus};
use crate::strutil::{spec_dec, spec_dec_val, lemma_dec_round_trip, u64_to_dec};
use crate::version::{spec_version_token, HttpVersion};

verus! {

broadcast use vstd::string::group_string_axioms;

/// An outgoing response, consumed once by the serializer.
#[derive(Debug, Clone)]
pub struct HttpResponse {
    pub status: HttpStatus,
    pub http_version: HttpVersion,
    pub body: String,
}

/// The byte length of a body once encoded onto the wire.
pub open spec fn spec_byte_len(body: Seq<char>) -> nat {
    vstd::utf8::encode_utf8(body).len()
}

/// The header part of a response on the wire, with the content-length
/// field given explicitly: the status line, the fixed headers in their
/// fixed order, then the blank line.
pub open spec fn spec_wire_header(
    version: HttpVersion,
    status: HttpStatus,
    date: Seq<char>,
    clen: Seq<char>,
) -> Seq<char> {
    spec_version_token(version) + " "@ + spec_dec(spec_status_code(status) as nat) + " "@
        + spec_status_message(status) + "\r\nDate: "@ + date + "\r\nServer: Rust Server\r\nContent-Length: "@
        + clen + "\r\nContent-Type: text/html\r\nConnection: Closed\r\n\r\n"@
}

/// A response on the wire: the header part, whose content-length field
/// carries the byte length of the body, followed by the body.
pub open spec fn spec_wire(
    version: HttpVersion,
    status: HttpStatus,
    date: Seq<char>,
    body: Seq<char>,
) -> Seq<char> {
    spec_wire_header(version, status, date, spec_dec(spec_byte_len(body))) + body
}

/// The name of the date text that the clock produces for a given
/// second count: "YYYY-MM-DD HH:MM:SS".
pub uninterp spec fn datetime_string_of(ts: u64) -> Seq<char>;

/// The first second past the year 9999, which the date formatter is
/// never asked about: beyond it the year needs more than four digits,
/// and far beyond it the formatter's year count leaves `i32`.
pub const LAST_FORMATTED_SECOND: u64 = 253402300800;

/// The shape of a date header text: nineteen characters, with the
/// separators of "YYYY-MM-DD HH:MM:SS" in their fixed places.
pub open spec fn spec_date_shape(d: Seq<char>) -> bool {
    d.len() == 19 && d[4] == '-' && d[7] == '-' && d[10] == ' ' && d[13] == ':' && d[16] == ':'
}

/// What the library knows of every date header it emits: the named
/// clock output for some second count, or the epoch fallback text, and
/// in either case the fixed "YYYY-MM-DD HH:MM:SS" shape.
pub open spec fn spec_clock_date(d: Seq<char>) -> bool {
    &&& (exists|ts: u64| d == datetime_string_of(ts)) || d == "1970-01-01 00:00:00"@
    &&& spec_date_shape(d)
}

/// Relies on std::time::SystemTime::now and duration_since: the
/// seconds elapsed since the epoch, or zero when the clock reads
/// earlier than the epoch.  Nothing can be promised of a clock
/// reading.
#[verifier::external_body]
fn unix_now_seconds() -> u64 {
    match std::time::SystemTime::now().duration_since(std::time::UNIX_EPOCH) {
        Ok(d) => d.as_secs(),
        Err(_) => 0,
    }
}

/// Relies on dev_utils::datetime::DateTime::from_timestamp and its
/// Display rendering: the "YYYY-MM-DD HH:MM:SS" text is a function of
/// the timestamp alone, and the conversion reports an error for some
/// timestamps instead of returning a text.  The bound keeps the year
/// below 10000: the formatter counts years in an `i32` and zero-pads
/// every field, so within the bound it returns normally and a returned
/// text has the nineteen-character shape.
#[verifier::external_body]
fn format_timestamp(ts: u64) -> (r: Option<String>)
    requires
        ts < LAST_FORMATTED_SECOND,
    ensures
        r matches Some(s) ==> s@ == datetime_string_of(ts) && spec_date_shape(s@),
{
    let signed = match i64::try_from(ts) {
        Ok(t) => t,
        Err(_) => return None,
    };
    match dev_utils::datetime::DateTime::from_timestamp(signed) {
        Ok(dt) => Some(dt.to_string()),
        Err(_) => None,
    }
}

impl HttpResponse {
    /// Builds a response from all three fields.
    pub fn new(status: HttpStatus, http_version: HttpVersion, body: String) -> (r: HttpResponse)
        ensures
            r.status == status,
            r.http_version == http_version,
            r.body == body,
    {
        HttpResponse { status, http_version, body }
    }

    /// Builds a response with the default protocol version.
    pub fn new_1_1(status: HttpStatus, body: String) -> (r: HttpResponse)
        ensures
            r.status == status,
            r.http_version == HttpVersion::Http1_1,
            r.body == body,
    {
        HttpResponse { status, http_version: HttpVersion::Http1_1, body }
    }

    /// The date header text for the current clock reading, as
    /// "YYYY-MM-DD HH:MM:SS"; the epoch text when the clock reading
    /// cannot be converted.  The reading is deliberately shifted six
    /// hours back first: the server dates its responses in a fixed
    /// zone six hours behind its clock.
    pub fn now_hour_minute_second() -> (r: String)
        ensures
            spec_clock_date(r@),
    {
        let ts = unix_now_seconds();
        let adjusted: u64 = if ts >= 21600 {
            ts - 21600
        } else {
            0
        };
        let formatted: Option<String> = if adjusted < LAST_FORMATTED_SECOND {
            format_timestamp(adjusted)
        } else {
            None
        };
        match formatted {
            Some(s) => s,
            None => {
                let fallback = String::from_str("1970-01-01 00:00:00");
                proof {
                    reveal_strlit("1970-01-01 00:00:00");
                    assert(fallback@.len() == 19);
                    assert(fallback@[4] == '-');
                    assert(fallback@[7] == '-');
                    assert(fallback@[10] == ' ');
                    assert(fallback@[13] == ':');
                    assert(fallback@[16] == ':');
                }
                fallback
            },
        }
    }

    /// Serializes the response with the given date header text.
    pub fn to_string_with_date(&self, date: &str) -> (r: String)
        ensures
            r@ == spec_wire(self.http_version, self.status, date@, self.body@),
    {
        let mut s = String::new();
        s.append(self.http_version.as_str());
        s.append(" ");
        let code_digits = u64_to_dec(self.status.code() as u64);
        s.append(code_digits.as_str());
        s.append(" ");
        s.append(self.status.message());
        s.append("\r\nDate: ");
        s.append(date);
        s.append("\r\nServer: Rust Server\r\nContent-Length: ");
        let blen = self.body.as_str().as_bytes().len();
        let len_digits = u64_to_dec(blen as u64);
        s.append(len_digits.as_str());
        s.append("\r\nContent-Type: text/html\r\nConnection: Closed\r\n\r\n");
        s.append(self.body.as_str());
        proof {
            assert(blen as nat == spec_byte_len(self.body@));
            assert(s@ =~= spec_wire(self.http_version, self.status, date@, self.body@));
        }
        s
    }

    /// Serializes the response, dating it with the current clock
    /// reading: the wire text is the fixed format around some date
    /// header of the clock's shape.
    pub fn to_string(&self) -> (r: String)
        ensures
            exists|date: Seq<char>|
                spec_clock_date(date) && r@ == spec_wire(
                    self.http_version,
                    self.status,
                    date,
                    self.body@,
                ),
    {
        let date = Self::now_hour_minute_second();
        let r = self.to_string_with_date(date.as_str());
        proof {
            assert(spec_clock_date(date@) && r@ == spec_wire(
                self.http_version,
                self.status,
                date@,
                self.body@,
            ));
        }
        r
    }
}

/// The content-length field of a serialized response parses back to
/// exactly the byte length of the body segment that follows the blank
/// line: the wire text is the header part, whose content-length digits
/// denote the body's byte length, followed by the body itself.
pub proof fn lemma_content_length_round_trip(
    version: HttpVersion,
    status: HttpStatus,
    date: Seq<char>,
    body: Seq<char>,
)
    ensures
        spec_wire(version, status, date, body) == spec_wire_header(
            version,
            status,
            date,
            spec_dec(spec_byte_len(body)),
        ) + body,
        spec_dec_val(spec_dec(spec_byte_len(body))) == spec_byte_len(body),
{
    lemma_dec_round_trip(spec_byte_len(body));
}

} // verus!
