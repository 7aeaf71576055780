//! The router: a validated (method, path, body) is mapped to exactly
//! one file-store operation, and the store's outcome is mapped to a
//! status and a response body built from a page template.
//!
//! The routing policy is fixed here in one place: a failed read is a
//! missing resource (404), any other store failure is a bad gateway
//! (502); on store success the root path answers 200, the recognized
//! path "/about" answers 201, the recognized but unimplemented path
//! "/contact" answers the 501 fallback, and every other path answers
//! 503.
use vstd::prelude::*;

use crate::method::HttpMethod;
use crate::response::HttpResponse;
use crate::status::{spec_status_code, spec_status_message, HttpStatus};
use crate::strutil::{spec_dec, str_eq, u64_to_dec};
use crate::text::{replace_all, spec_replace, spec_trim_slashes, trim_leading_slashes};
use crate::version::HttpVersion;

verus! {

broadcast use vstd::string::group_string_axioms;

/// The file-store operations the router can ask for.
#[derive(Debug, PartialEq, Eq, Structural, Clone, Copy)]
pub enum CrudOp {
    Create,
    Read,
    Append,
    Delete,
}

/// The operation each method maps to.
pub open spec fn spec_op_for_method(m: HttpMethod) -> CrudOp {
    match m {
        HttpMethod::POST => CrudOp::Create,
        HttpMethod::GET => CrudOp::Read,
        HttpMethod::PUT => CrudOp::Append,
        HttpMethod::DELETE => CrudOp::Delete,
    }
}

/// Maps a method to its file-store operation.
pub fn op_for_method(m: HttpMethod) -> (r: CrudOp)
    ensures
        r == spec_op_for_method(m),
{
    match m {
        HttpMethod::POST => CrudOp::Create,
        HttpMethod::GET => CrudOp::Read,
        HttpMethod::PUT => CrudOp::Append,
        HttpMethod::DELETE => CrudOp::Delete,
    }
}

/// The store file name a request path maps to: the path with every
/// leading separator removed and the fixed extension appended, so
/// "//x" and "/x" name the same record.
pub open spec fn spec_resource_filename(url: Seq<char>) -> Seq<char> {
    spec_trim_slashes(url) + ".txt"@
}

/// Derives the store file name for a request path.
pub fn resource_filename(url: &str) -> (r: String)
    ensures
        r@ == spec_resource_filename(url@),
{
    let mut s = trim_leading_slashes(url);
    s.append(".txt");
    s
}

/// A response body built from a page template: the placeholders are
/// filled with the status message, the numeric code, and the given
/// message, in the template's own order.
pub open spec fn spec_body_of(template: Seq<char>, status: HttpStatus, message: Seq<char>) -> Seq<
    char,
> {
    spec_replace(
        spec_replace(
            spec_replace(
                spec_replace(template, "{TITLE}"@, spec_status_message(status)),
                "{CODE}"@,
                spec_dec(spec_status_code(status) as nat),
            ),
            "{STATUS}"@,
            spec_status_message(status),
        ),
        "{MESSAGE}"@,
        message,
    )
}

/// Builds the response for a message and a status from a page
/// template.
pub fn generate_response(message: &str, status: HttpStatus, template: &str) -> (r: HttpResponse)
    ensures
        r.status == status,
        r.http_version == HttpVersion::Http1_1,
        r.body@ == spec_body_of(template@, status, message@),
{
    let t = replace_all(template, "{TITLE}", status.message());
    let code_digits = u64_to_dec(status.code() as u64);
    let t = replace_all(t.as_str(), "{CODE}", code_digits.as_str());
    let t = replace_all(t.as_str(), "{STATUS}", status.message());
    let t = replace_all(t.as_str(), "{MESSAGE}", message);
    HttpResponse::new(status, HttpVersion::Http1_1, t)
}

/// The status a path answers when its store operation succeeded.
pub open spec fn spec_route_status(url: Seq<char>) -> HttpStatus {
    if url == "/"@ {
        HttpStatus::_200
    } else if url == "/about"@ {
        HttpStatus::_201
    } else if url == "/contact"@ {
        HttpStatus::_501
    } else {
        HttpStatus::_503
    }
}

/// The message a path answers with when its store operation succeeded
/// and reported `ok`.
pub open spec fn spec_route_message(url: Seq<char>, ok: Seq<char>) -> Seq<char> {
    if url == "/"@ {
        spec_status_message(HttpStatus::_200)
    } else if url == "/about"@ {
        ok
    } else if url == "/contact"@ {
        ok
    } else {
        "Unknown Service"@
    }
}

/// The status a failed store operation answers: a failed read is a
/// missing resource, any other failure is a bad gateway.
pub open spec fn spec_failure_status(op: CrudOp) -> HttpStatus {
    if op == CrudOp::Read {
        HttpStatus::_404
    } else {
        HttpStatus::_502
    }
}

/// Maps a store outcome to the response for the request's path: on
/// success the path's route decides status and message; on failure the
/// failure status for the operation is answered and the store's error
/// text is surfaced as the message.
pub fn finish_dispatch(
    op: CrudOp,
    url: &str,
    store_result: Result<String, String>,
    template: &str,
) -> (r: HttpResponse)
    ensures
        r.http_version == HttpVersion::Http1_1,
        store_result matches Ok(ok) ==> r.status == spec_route_status(url@) && r.body@
            == spec_body_of(template@, spec_route_status(url@), spec_route_message(url@, ok@)),
        store_result matches Err(e) ==> r.status == spec_failure_status(op) && r.body@
            == spec_body_of(template@, spec_failure_status(op), e@),
{
    match store_result {
        Ok(ok) => {
            if str_eq(url, "/") {
                generate_response(HttpStatus::_200.message(), HttpStatus::_200, template)
            } else if str_eq(url, "/about") {
                generate_response(ok.as_str(), HttpStatus::_201, template)
            } else if str_eq(url, "/contact") {
                generate_response(ok.as_str(), HttpStatus::_501, template)
            } else {
                generate_response("Unknown Service", HttpStatus::_503, template)
            }
        },
        Err(e) => {
            let status = if op == CrudOp::Read {
                HttpStatus::_404
            } else {
                HttpStatus::_502
            };
            generate_response(e.as_str(), status, template)
        },
    }
}

} // verus!
