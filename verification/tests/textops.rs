//! The text helpers: line splitting, tokenization, joining, trimming
//! and replacement behave as their specifications say on concrete
//! inputs.
use rust_server::parser::match_request_line;
use rust_server::method::HttpMethod;
use rust_server::text::{join_tail_lines, replace_all, split_lines, split_tokens, trim_leading_slashes};
use rust_server::version::HttpVersion;

#[test]
fn lines_split_on_both_endings() {
    assert_eq!(split_lines("a\r\nb\nc"), vec!["a", "b", "c"]);
    assert_eq!(split_lines("a\n"), vec!["a"]);
    assert_eq!(split_lines("\n\n"), vec!["", ""]);
    assert_eq!(split_lines(""), Vec::<String>::new());
    assert_eq!(split_lines("no newline"), vec!["no newline"]);
    assert_eq!(split_lines("keep\rinside"), vec!["keep\rinside"]);
}

#[test]
fn tokens_split_on_whitespace_runs() {
    assert_eq!(split_tokens("GET / HTTP/1.1"), vec!["GET", "/", "HTTP/1.1"]);
    assert_eq!(split_tokens("  a\t\tb  "), vec!["a", "b"]);
    assert_eq!(split_tokens(""), Vec::<String>::new());
    assert_eq!(split_tokens("   "), Vec::<String>::new());
}

#[test]
fn tokens_split_on_unicode_whitespace() {
    assert_eq!(split_tokens("a\u{a0}b\u{2003}c"), vec!["a", "b", "c"]);
    assert_eq!(split_tokens("\u{3000}x\u{85}"), vec!["x"]);
}

#[test]
fn tail_join_rebuilds_body() {
    let lines: Vec<String> =
        vec![String::from("req"), String::from("one"), String::from("two")];
    assert_eq!(join_tail_lines(&lines), "one\ntwo");
    let single = vec![String::from("req")];
    assert_eq!(join_tail_lines(&single), "");
    assert_eq!(join_tail_lines(&Vec::new()), "");
}

#[test]
fn slash_trimming() {
    assert_eq!(trim_leading_slashes("/about"), "about");
    assert_eq!(trim_leading_slashes("///x/y"), "x/y");
    assert_eq!(trim_leading_slashes("plain"), "plain");
    assert_eq!(trim_leading_slashes("/"), "");
    assert_eq!(trim_leading_slashes(""), "");
}

#[test]
fn replacement_left_to_right() {
    assert_eq!(replace_all("a{X}b{X}c", "{X}", "1"), "a1b1c");
    assert_eq!(replace_all("aaa", "aa", "b"), "ba");
    assert_eq!(replace_all("none here", "{X}", "1"), "none here");
    assert_eq!(replace_all("grow", "o", "oo"), "groow");
    assert_eq!(replace_all("unchanged", "", "zzz"), "unchanged");
}

#[test]
fn request_line_parses_first_three_tokens() {
    let (m, u, v) = match_request_line("GET /about HTTP/1.1").expect("well-formed");
    assert_eq!(m, HttpMethod::GET);
    assert_eq!(u, "/about");
    assert_eq!(v, HttpVersion::Http1_1);
    // Tokens past the third are ignored.
    let (m, u, v) = match_request_line("DELETE /x HTTP/2.0 trailing junk").expect("well-formed");
    assert_eq!(m, HttpMethod::DELETE);
    assert_eq!(u, "/x");
    assert_eq!(v, HttpVersion::Http2_0);
}

#[test]
fn request_line_rejections() {
    assert!(match_request_line("").is_none());
    assert!(match_request_line("GET /only").is_none());
    assert!(match_request_line("FETCH / HTTP/1.1").is_none());
    assert!(match_request_line("GET / HTTP/9.9").is_none());
}
