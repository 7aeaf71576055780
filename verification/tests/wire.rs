//! The wire formats: request rendering, response serialization, and
//! the content-length round trip.
use rust_server::method::HttpMethod;
use rust_server::request::Request;
use rust_server::response::HttpResponse;
use rust_server::status::HttpStatus;
use rust_server::version::HttpVersion;

#[test]
fn request_render_with_headers() {
    let headers = vec![String::from("Host: example"), String::from("Accept: */*")];
    let r = Request::new(HttpMethod::GET, "/index.html", headers, String::from("payload"));
    assert_eq!(
        r.render(),
        "GET /index.html HTTP/1.1\r\nHost: example\r\nAccept: */*\r\n\r\npayload"
    );
}

#[test]
fn request_render_bare_get() {
    let r = Request::new_1_1_get("/about");
    assert_eq!(r.render(), "GET /about HTTP/1.1\r\n\r\n");
    assert_eq!(r.method, HttpMethod::GET);
    assert_eq!(r.url, "/about");
    assert!(r.headers.is_empty());
    assert!(r.body.is_empty());
}

#[test]
fn request_render_no_headers() {
    let r = Request::new_1_1(HttpMethod::PUT, "/about", String::from("Hello, Rust!"));
    assert_eq!(r.render(), "PUT /about HTTP/1.1\r\n\r\nHello, Rust!");
}

#[test]
fn response_serialization_exact() {
    let resp = HttpResponse::new(
        HttpStatus::_200,
        HttpVersion::Http1_1,
        String::from("Hello World!"),
    );
    let wire = resp.to_string_with_date("2023-05-01 12:34:56");
    assert_eq!(
        wire,
        "HTTP/1.1 200 OK\r\nDate: 2023-05-01 12:34:56\r\nServer: Rust Server\r\nContent-Length: 12\r\nContent-Type: text/html\r\nConnection: Closed\r\n\r\nHello World!"
    );
}

#[test]
fn response_new_1_1_defaults_version() {
    let resp = HttpResponse::new_1_1(HttpStatus::_404, String::from("gone"));
    assert_eq!(resp.http_version, HttpVersion::Http1_1);
    assert_eq!(resp.status, HttpStatus::_404);
    assert_eq!(resp.body, "gone");
}

/// Pulls the content-length field back out of a serialized response
/// and the body segment after the blank line.
fn parse_back(wire: &str) -> (usize, usize) {
    let marker = "Content-Length: ";
    let at = wire.find(marker).expect("content-length header present");
    let after = &wire[at + marker.len()..];
    let end = after.find("\r\n").expect("header line ends");
    let declared: usize = after[..end].parse().expect("decimal length");
    let blank = wire.find("\r\n\r\n").expect("blank line present");
    let body = &wire[blank + 4..];
    (declared, body.len())
}

#[test]
fn content_length_round_trip() {
    let resp = HttpResponse::new(
        HttpStatus::_200,
        HttpVersion::Http1_1,
        String::from("Hello World!"),
    );
    let (declared, actual) = parse_back(&resp.to_string_with_date("2023-05-01 12:34:56"));
    assert_eq!(declared, 12);
    assert_eq!(actual, 12);
}

#[test]
fn content_length_round_trip_empty_body() {
    let resp = HttpResponse::new_1_1(HttpStatus::_204, String::new());
    let (declared, actual) = parse_back(&resp.to_string_with_date("2023-05-01 12:34:56"));
    assert_eq!(declared, 0);
    assert_eq!(actual, 0);
}

#[test]
fn content_length_counts_bytes_not_chars() {
    let resp = HttpResponse::new_1_1(HttpStatus::_200, String::from("héllo"));
    let (declared, actual) = parse_back(&resp.to_string_with_date("2023-05-01 12:34:56"));
    assert_eq!(declared, 6);
    assert_eq!(actual, 6);
}

#[test]
fn response_to_string_dates_itself() {
    let resp = HttpResponse::new_1_1(HttpStatus::_200, String::from("x"));
    let wire = resp.to_string();
    assert!(wire.starts_with("HTTP/1.1 200 OK\r\nDate: "));
    let (declared, actual) = parse_back(&wire);
    assert_eq!(declared, 1);
    assert_eq!(actual, 1);
}

#[test]
fn date_header_shape() {
    let d = HttpResponse::now_hour_minute_second();
    let bytes: Vec<char> = d.chars().collect();
    assert_eq!(bytes.len(), 19);
    assert_eq!(bytes[4], '-');
    assert_eq!(bytes[7], '-');
    assert_eq!(bytes[10], ' ');
    assert_eq!(bytes[13], ':');
    assert_eq!(bytes[16], ':');
}
