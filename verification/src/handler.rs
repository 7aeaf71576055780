//! The connection handler's decision core: one connection's decoded
//! text is turned into a plan — close silently on the reserved favicon
//! path, reject a malformed request line with a 400 response, or
//! dispatch a store operation.  The caller performs the store
//! operation and hands its outcome to the router.
use vstd::prelude::*;

use crate::method::HttpMethod;
use crate::parser::{match_request_line, spec_parse_request_line};
use crate::response::HttpResponse;
use crate::router::{op_for_method, resource_filename, spec_op_for_method, spec_resource_filename, CrudOp};
use crate::status::HttpStatus;
use crate::strutil::str_eq;
use crate::text::{join_tail_lines, spec_lines, spec_tail_join, spec_tokens, split_lines, split_tokens};
use crate::version::HttpVersion;

verus! {

broadcast use vstd::string::group_string_axioms;

/// What a connection's text asks the server to do.
#[derive(Debug)]
pub enum ConnectionPlan {
    /// Close the connection without writing any bytes.
    CloseSilently,
    /// Write this response and close: the request line was malformed.
    Reject(HttpResponse),
    /// Perform this store operation, then answer through the router.
    Dispatch { op: CrudOp, filename: String, content: String, url: String },
}

/// The request line of a connection's text: its first line, or empty
/// when the text has none.
pub open spec fn spec_request_line_of(text: Seq<char>) -> Seq<char> {
    if spec_lines(text).len() > 0 {
        spec_lines(text)[0]
    } else {
        Seq::empty()
    }
}

/// The body of a connection's text: every line after the first,
/// joined with single newlines.
pub open spec fn spec_body_of_text(text: Seq<char>) -> Seq<char> {
    spec_tail_join(spec_lines(text))
}

/// Whether a request line asks for the reserved favicon path.
pub open spec fn spec_is_favicon(line: Seq<char>) -> bool {
    spec_tokens(line).len() >= 2 && spec_tokens(line)[1] == "/favicon.ico"@
}

/// Turns one connection's decoded text into a plan.  The favicon
/// short-circuit is applied before parsing; a request line that does
/// not parse earns a bare 400 response; otherwise the store operation,
/// file name and content for the request are laid out.
pub fn plan_connection(text: &str) -> (r: ConnectionPlan)
    ensures
        ({
            let rl = spec_request_line_of(text@);
            let parsed = spec_parse_request_line(rl);
            &&& spec_is_favicon(rl) ==> r is CloseSilently
            &&& (!spec_is_favicon(rl) && parsed is None) ==> (r matches ConnectionPlan::Reject(
                resp,
            ) && resp.status == HttpStatus::_400 && resp.http_version == HttpVersion::Http1_1
                && resp.body@ == "Invalid"@)
            &&& (!spec_is_favicon(rl) && parsed is Some) ==> (r
                matches ConnectionPlan::Dispatch { op, filename, content, url } && op
                == spec_op_for_method(parsed.unwrap().0) && filename@ == spec_resource_filename(
                parsed.unwrap().1,
            ) && content@ == spec_body_of_text(text@) && url@ == parsed.unwrap().1)
        }),
{
    let lines = split_lines(text);
    let request_line: String = if lines.len() > 0 {
        lines[0].clone()
    } else {
        String::new()
    };
    proof {
        if lines@.len() == 0 {
            assert(request_line@ =~= spec_request_line_of(text@));
        } else {
            assert(lines.deep_view()[0] == lines@[0]@);
        }
    }
    let tokens = split_tokens(request_line.as_str());
    if tokens.len() >= 2 && str_eq(tokens[1].as_str(), "/favicon.ico") {
        proof {
            assert(tokens.deep_view()[1] == tokens@[1]@);
        }
        return ConnectionPlan::CloseSilently;
    }
    proof {
        if tokens@.len() >= 2 {
            assert(tokens.deep_view()[1] == tokens@[1]@);
        }
    }
    match match_request_line(request_line.as_str()) {
        Some((method, url, _version)) => {
            let op = op_for_method(method);
            let filename = resource_filename(url.as_str());
            let content = join_tail_lines(&lines);
            ConnectionPlan::Dispatch { op, filename, content, url }
        },
        None => {
            let resp = HttpResponse::new(
                HttpStatus::_400,
                HttpVersion::Http1_1,
                String::from_str("Invalid"),
            );
            ConnectionPlan::Reject(resp)
        },
    }
}

} // verus!
