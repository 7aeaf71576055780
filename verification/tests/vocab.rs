//! The protocol vocabulary: token and code mappings round-trip, and
//! unknown tokens or codes resolve to nothing.
use rust_server::method::HttpMethod;
use rust_server::status::HttpStatus;
use rust_server::version::HttpVersion;

#[test]
fn method_round_trip() {
    let all = [HttpMethod::GET, HttpMethod::POST, HttpMethod::PUT, HttpMethod::DELETE];
    for m in all {
        assert_eq!(HttpMethod::from_str(m.as_str()), Some(m));
    }
}

#[test]
fn method_unknown_tokens() {
    assert_eq!(HttpMethod::from_str("BOGUS"), None);
    assert_eq!(HttpMethod::from_str("get"), None);
    assert_eq!(HttpMethod::from_str(""), None);
    assert_eq!(HttpMethod::from_str("GET "), None);
}

#[test]
fn method_default_is_get() {
    assert_eq!(HttpMethod::default(), HttpMethod::GET);
}

#[test]
fn version_round_trip() {
    let all = [HttpVersion::Http1_0, HttpVersion::Http1_1, HttpVersion::Http2_0];
    for v in all {
        assert_eq!(HttpVersion::from_str(v.as_str()), Some(v));
    }
}

#[test]
fn version_unknown_tokens() {
    assert_eq!(HttpVersion::from_str("HTTP/2.4"), None);
    assert_eq!(HttpVersion::from_str("http/1.1"), None);
    assert_eq!(HttpVersion::from_str(""), None);
}

#[test]
fn version_default_is_1_1() {
    assert_eq!(HttpVersion::default(), HttpVersion::Http1_1);
}

#[test]
fn status_code_round_trip() {
    let codes = [
        100u16, 101, 102, 200, 201, 202, 203, 204, 205, 300, 301, 302, 400, 401, 403, 404, 405,
        406, 408, 409, 410, 500, 501, 502, 503, 504, 507, 511, 599,
    ];
    for c in codes {
        let s = HttpStatus::from_u16(c).expect("code is in the table");
        assert_eq!(s.code(), c);
        assert_eq!(HttpStatus::from_u16(s.code()), Some(s));
    }
}

#[test]
fn status_lookup_hits_and_misses() {
    assert_eq!(HttpStatus::from_u16(200), Some(HttpStatus::_200));
    assert_eq!(HttpStatus::from_u16(9999), None);
    assert_eq!(HttpStatus::from_u16(402), None);
    assert_eq!(HttpStatus::from_u16(0), None);
    assert_eq!(HttpStatus::new(404), Some(HttpStatus::_404));
    assert_eq!(HttpStatus::new(600), None);
}

#[test]
fn status_messages() {
    assert_eq!(HttpStatus::_200.message(), "OK");
    assert_eq!(HttpStatus::_404.message(), "Not Found");
    assert_eq!(HttpStatus::_501.message(), "Not Implemented");
    assert_eq!(HttpStatus::_599.message(), "Network Connect Timeout Error");
}

#[test]
fn status_default_is_501() {
    assert_eq!(HttpStatus::default(), HttpStatus::_501);
    assert_eq!(HttpStatus::default().code(), 501);
    assert_eq!(HttpStatus::default().message(), "Not Implemented");
}

#[test]
fn status_bare_response() {
    assert_eq!(HttpStatus::_200.get_as_response(), "HTTP/1.1 200 OK\r\n\r\n");
    assert_eq!(HttpStatus::_404.get_as_response(), "HTTP/1.1 404 Not Found\r\n\r\n");
}

#[test]
fn status_styled_rendering() {
    assert_eq!(HttpStatus::_200.styled(), "\x1b[32m200\x1b[0m OK");
    assert_eq!(HttpStatus::_404.styled(), "\x1b[33m404\x1b[0m Not Found");
    assert_eq!(HttpStatus::_500.styled(), "\x1b[31m500\x1b[0m Internal Server Error");
    assert_eq!(HttpStatus::_102.styled(), "\x1b[34m102\x1b[0m Processing");
    assert_eq!(HttpStatus::_302.styled(), "\x1b[35m302\x1b[0m Found");
}
