use tachy_daemon::router::split_target;
use tachy_daemon::httputil::{extract_auth_header, extract_auth_header_checked};
use tachy_daemon::httputil::{
    chrono_now_secs, chrono_now_str, parse_http_request, secs_string, truncate_completion,
    urlencoding_decode,
};

#[test]
fn http_decode_plain_string() {
    assert_eq!(urlencoding_decode("hello"), "hello");
}

#[test]
fn http_decode_plus_as_space() {
    assert_eq!(urlencoding_decode("hello+world"), "hello world");
}

#[test]
fn http_decode_percent_encoded() {
    assert_eq!(urlencoding_decode("hello%20world"), "hello world");
    assert_eq!(urlencoding_decode("a%2Fb"), "a/b");
}

#[test]
fn http_decode_mixed_encoding() {
    assert_eq!(urlencoding_decode("fn+main%28%29"), "fn main()");
}

#[test]
fn http_decode_incomplete_percent_sequence_kept_as_is() {
    // A lone % at the end should not panic
    let result = urlencoding_decode("abc%");
    assert!(result.starts_with("abc"));
}

#[test]
fn mod_decode_plain_string() {
    assert_eq!(urlencoding_decode("hello"), "hello");
}

#[test]
fn mod_decode_plus_as_space() {
    assert_eq!(urlencoding_decode("hello+world"), "hello world");
}

#[test]
fn mod_decode_percent_encoded() {
    assert_eq!(urlencoding_decode("hello%20world"), "hello world");
    assert_eq!(urlencoding_decode("a%2Fb"), "a/b");
}

#[test]
fn mod_decode_mixed_encoding() {
    assert_eq!(urlencoding_decode("fn+main%28%29"), "fn main()");
}

#[test]
fn mod_decode_incomplete_percent_sequence_kept_as_is() {
    // A lone % at the end should not panic
    let result = urlencoding_decode("abc%");
    assert!(result.starts_with("abc"));
}

#[test]
fn decode_edge_cases() {
    assert_eq!(urlencoding_decode("%4a%4A"), "JJ");
    assert_eq!(urlencoding_decode("%zz"), "%zz");
    assert_eq!(urlencoding_decode("%+F"), "% F");
    assert_eq!(urlencoding_decode("%2"), "%2");
    assert_eq!(urlencoding_decode("%C3%A9"), "é");
    assert_eq!(urlencoding_decode("caf%C3%A9+au+lait"), "café au lait");
    assert_eq!(urlencoding_decode("é%20x"), "é x");
    assert_eq!(urlencoding_decode("a%FFb"), "a\u{FFFD}b");
    assert_eq!(urlencoding_decode("%é"), "%é");
    assert_eq!(urlencoding_decode(""), "");
}

#[test]
fn truncate_keeps_short_text_and_cuts_long_text() {
    assert_eq!(truncate_completion("hello", 2), "hello");
    assert_eq!(truncate_completion("hello world", 1), "hell");
    assert_eq!(truncate_completion("abcdefgh", 2), "abcdefgh");
    assert_eq!(truncate_completion("abc", 0), "");
}

#[test]
fn parse_request_line_and_body() {
    let (m, p, b) = parse_http_request("POST /api/x HTTP/1.1\r\nHost: a\r\n\r\n{\"a\":1}");
    assert_eq!((m.as_str(), p.as_str(), b.as_str()), ("POST", "/api/x", "{\"a\":1}"));
    let (m, p, b) = parse_http_request("GET /h HTTP/1.1\n\nbody\n\nmore");
    assert_eq!((m.as_str(), p.as_str(), b.as_str()), ("GET", "/h", "body\n\nmore"));
    let (m, p, b) = parse_http_request("");
    assert_eq!((m.as_str(), p.as_str(), b.as_str()), ("GET", "/", ""));
    let (m, p, b) = parse_http_request("  DELETE\t /a/b  extra\r\n");
    assert_eq!((m.as_str(), p.as_str(), b.as_str()), ("DELETE", "/a/b", ""));
    let (m, p, _) = parse_http_request("PUT\r\n\r\n");
    assert_eq!((m.as_str(), p.as_str()), ("PUT", "/"));
}

#[test]
fn timestamps_render_seconds() {
    assert_eq!(secs_string(0), "0s");
    assert_eq!(secs_string(1700000000), "1700000000s");
    assert_eq!(secs_string(u64::MAX), "18446744073709551615s");
    assert!(chrono_now_secs() > 0);
    assert!(chrono_now_str().ends_with('s'));
}

#[test]
fn header_lookup_is_case_insensitive() {
    let raw = "GET / HTTP/1.1\r\nHost: x\r\nContent-Type:  application/json \r\n\r\nbody";
    assert_eq!(tachy_daemon::httputil::extract_header(raw, "content-type").as_deref(), Some("application/json"));
    assert_eq!(tachy_daemon::httputil::extract_header(raw, "HOST").as_deref(), Some("x"));
    assert_eq!(tachy_daemon::httputil::extract_header(raw, "X-Missing"), None);
    assert_eq!(
        tachy_daemon::httputil::extract_header_checked(raw, "Host"),
        Some(Some("x".to_string()))
    );
}

#[test]
fn auth_header_bearer_and_sso() {
    assert_eq!(extract_auth_header("GET /\r\nAuthorization: Bearer abc123\r\n").as_deref(), Some("abc123"));
    assert_eq!(extract_auth_header("GET /\r\nauthorization: bearer  tok \r\n").as_deref(), Some("tok"));
    assert_eq!(extract_auth_header("GET /\r\nAuthorization: Basic zzz\r\n").as_deref(), Some("Basic zzz"));
    assert_eq!(extract_auth_header("GET /\r\nX-SSO-Token: sso-1\r\n").as_deref(), Some("sso-1"));
    assert_eq!(extract_auth_header("GET /\r\nHost: x\r\n"), None);
    assert_eq!(extract_auth_header_checked("GET /\r\nX-SSO-Token: s\r\n"), Some(Some("s".to_string())));
}

#[test]
fn header_line_that_cannot_be_cut_is_reported() {
    // The Kelvin sign lowercases to "k": the line matches header "k", but the
    // value would start inside that three-byte character.
    let raw = "\u{212A}: v\r\n";
    assert_eq!(tachy_daemon::httputil::extract_header_checked(raw, "k"), None);
    // here the cut falls after the Kelvin sign
    let raw = "X-SSO-To\u{212A}en: v\r\n";
    assert_eq!(extract_auth_header_checked(raw), Some(Some("n: v".to_string())));
}

#[test]
fn request_targets_split() {
    let (p, full, q) = split_target("/api/search/?q=rust&k=2");
    assert_eq!((p.as_str(), full.as_str(), q.as_str()), ("/api/search", "/api/search", "q=rust&k=2"));
    let (p, full, q) = split_target("///");
    assert_eq!((p.as_str(), full.as_str(), q.as_str()), ("/", "", ""));
    let (p, _, q) = split_target("/health?");
    assert_eq!((p.as_str(), q.as_str()), ("/health", ""));
}
