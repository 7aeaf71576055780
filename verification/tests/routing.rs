//! The connection plan and the router: the end-to-end decision path
//! from a connection's text to the response, with store outcomes
//! injected.
use rust_server::handler::{plan_connection, ConnectionPlan};
use rust_server::router::{finish_dispatch, generate_response, op_for_method, resource_filename, CrudOp};
use rust_server::method::HttpMethod;
use rust_server::status::HttpStatus;
use rust_server::version::HttpVersion;

const TEMPLATE: &str = "<html><title>{TITLE}</title><h1>{CODE} {STATUS}</h1><p>{MESSAGE}</p></html>";

#[test]
fn scenario_get_about_on_empty_store() {
    let plan = plan_connection("GET /about HTTP/1.1\r\n\r\n");
    match plan {
        ConnectionPlan::Dispatch { op, filename, content, url } => {
            assert_eq!(op, CrudOp::Read);
            assert_eq!(filename, "about.txt");
            assert_eq!(content, "");
            assert_eq!(url, "/about");
            // An empty store reports a failed read; the router answers
            // a missing resource and the body carries its message.
            let resp = finish_dispatch(
                op,
                &url,
                Err(String::from("file not found")),
                TEMPLATE,
            );
            assert_eq!(resp.status.code(), 404);
            assert!(resp.body.contains("Not Found"));
            let wire = resp.to_string_with_date("2023-05-01 12:34:56");
            assert!(wire.starts_with("HTTP/1.1 404"));
        }
        _ => panic!("a well-formed GET must dispatch"),
    }
}

#[test]
fn scenario_post_root_creates() {
    let plan = plan_connection("POST / HTTP/1.1\r\n\r\nhello");
    match plan {
        ConnectionPlan::Dispatch { op, filename, content, url } => {
            assert_eq!(op, CrudOp::Create);
            assert_eq!(filename, ".txt");
            assert_eq!(url, "/");
            // The first body line is the blank separator line; the
            // payload follows it.
            assert_eq!(content, "\nhello");
            assert!(content.ends_with("hello"));
            let resp = finish_dispatch(op, &url, Ok(String::from("created")), TEMPLATE);
            assert_eq!(resp.status.code(), 200);
            let wire = resp.to_string_with_date("2023-05-01 12:34:56");
            assert!(wire.starts_with("HTTP/1.1 200"));
        }
        _ => panic!("a well-formed POST must dispatch"),
    }
}

#[test]
fn scenario_favicon_is_silent() {
    let plan = plan_connection("GET /favicon.ico HTTP/1.1\r\n\r\n");
    assert!(matches!(plan, ConnectionPlan::CloseSilently));
}

#[test]
fn scenario_malformed_line_rejected() {
    let plan = plan_connection("BOGUS\r\n\r\n");
    match plan {
        ConnectionPlan::Reject(resp) => {
            assert_eq!(resp.status.code(), 400);
            assert_eq!(resp.http_version, HttpVersion::Http1_1);
            assert_eq!(resp.body, "Invalid");
            let wire = resp.to_string_with_date("2023-05-01 12:34:56");
            assert!(wire.starts_with("HTTP/1.1 400"));
        }
        _ => panic!("fewer than three tokens must be rejected"),
    }
}

#[test]
fn unknown_version_rejected() {
    let plan = plan_connection("GET / HTTP/2.4\r\n\r\n");
    assert!(matches!(plan, ConnectionPlan::Reject(_)));
}

#[test]
fn empty_text_rejected() {
    let plan = plan_connection("");
    assert!(matches!(plan, ConnectionPlan::Reject(_)));
}

#[test]
fn method_operation_table() {
    assert_eq!(op_for_method(HttpMethod::POST), CrudOp::Create);
    assert_eq!(op_for_method(HttpMethod::GET), CrudOp::Read);
    assert_eq!(op_for_method(HttpMethod::PUT), CrudOp::Append);
    assert_eq!(op_for_method(HttpMethod::DELETE), CrudOp::Delete);
}

#[test]
fn filename_derivation() {
    assert_eq!(resource_filename("/"), ".txt");
    assert_eq!(resource_filename("/about"), "about.txt");
    assert_eq!(resource_filename("//nested/path"), "nested/path.txt");
    assert_eq!(resource_filename("plain"), "plain.txt");
}

#[test]
fn route_statuses_on_success() {
    let ok = || Ok(String::from("done"));
    assert_eq!(finish_dispatch(CrudOp::Read, "/", ok(), TEMPLATE).status.code(), 200);
    assert_eq!(finish_dispatch(CrudOp::Read, "/about", ok(), TEMPLATE).status.code(), 201);
    // The recognized but unimplemented route answers the 501 fallback.
    assert_eq!(finish_dispatch(CrudOp::Read, "/contact", ok(), TEMPLATE).status.code(), 501);
    assert_eq!(finish_dispatch(CrudOp::Read, "/other", ok(), TEMPLATE).status.code(), 503);
}

#[test]
fn store_failure_statuses() {
    let err = || Err(String::from("disk on fire"));
    // A failed read is a missing resource; any other failure is a bad
    // gateway, and the store's error text is surfaced in the body.
    assert_eq!(finish_dispatch(CrudOp::Read, "/x", err(), TEMPLATE).status.code(), 404);
    let resp = finish_dispatch(CrudOp::Create, "/x", err(), TEMPLATE);
    assert_eq!(resp.status.code(), 502);
    assert!(resp.body.contains("disk on fire"));
    assert_eq!(finish_dispatch(CrudOp::Append, "/x", err(), TEMPLATE).status.code(), 502);
    assert_eq!(finish_dispatch(CrudOp::Delete, "/x", err(), TEMPLATE).status.code(), 502);
}

#[test]
fn template_placeholders_filled() {
    let resp = generate_response("the message", HttpStatus::_404, TEMPLATE);
    assert_eq!(resp.status, HttpStatus::_404);
    assert_eq!(resp.http_version, HttpVersion::Http1_1);
    assert_eq!(
        resp.body,
        "<html><title>Not Found</title><h1>404 Not Found</h1><p>the message</p></html>"
    );
}

#[test]
fn success_bodies_by_route() {
    let resp = finish_dispatch(CrudOp::Read, "/", Ok(String::from("ignored")), "{MESSAGE}");
    assert_eq!(resp.body, "OK");
    let resp = finish_dispatch(CrudOp::Read, "/about", Ok(String::from("store says hi")), "{MESSAGE}");
    assert_eq!(resp.body, "store says hi");
    let resp = finish_dispatch(CrudOp::Read, "/elsewhere", Ok(String::from("ignored")), "{MESSAGE}");
    assert_eq!(resp.body, "Unknown Service");
}
