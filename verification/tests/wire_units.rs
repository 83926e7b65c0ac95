use matrix_sdk::codec::{auth_header_vec, build_url, decode_failure};
use matrix_sdk::parse::{find_byte, find_pattern, parse_number_at};
use matrix_sdk::wire::{normalize_headers, response_to_http_response};
use matrix_sdk::{Error, Method, RawResponse, WireRequest};

fn header_pairs(pairs: &[(&str, &str)]) -> Vec<(String, String)> {
    pairs
        .iter()
        .map(|pair| (pair.0.to_string(), pair.1.to_string()))
        .collect()
}

#[test]
fn post_content_type_is_overridden() {
    let mut request = WireRequest {
        method: Method::Post,
        url: "https://homeserver.example/x".to_string(),
        headers: header_pairs(&[("content-type", "text/plain"), ("x-extra", "kept")]),
        body: b"{}".to_vec(),
    };
    normalize_headers(&mut request);
    assert_eq!(
        request.headers,
        header_pairs(&[("x-extra", "kept"), ("content-type", "application/json")])
    );
}

#[test]
fn repeated_content_type_collapses_to_one() {
    let mut request = WireRequest {
        method: Method::Delete,
        url: "https://homeserver.example/x".to_string(),
        headers: header_pairs(&[
            ("content-type", "text/plain"),
            ("content-type", "text/html"),
        ]),
        body: Vec::new(),
    };
    normalize_headers(&mut request);
    assert_eq!(
        request.headers,
        header_pairs(&[("content-type", "application/json")])
    );
}

#[test]
fn get_content_type_is_left_untouched() {
    let headers = header_pairs(&[("content-type", "text/plain")]);
    let mut request = WireRequest {
        method: Method::Get,
        url: "https://homeserver.example/x".to_string(),
        headers: headers.clone(),
        body: Vec::new(),
    };
    normalize_headers(&mut request);
    assert_eq!(request.headers, headers);
}

#[test]
fn nameless_header_entries_are_dropped() {
    let raw = RawResponse {
        status: 200,
        headers: vec![
            (Some("server".to_string()), "one".to_string()),
            (None, "continuation".to_string()),
            (Some("date".to_string()), "today".to_string()),
        ],
        body: b"payload".to_vec(),
    };
    let response = response_to_http_response(raw);
    assert_eq!(response.status, 200);
    assert_eq!(response.body, b"payload".to_vec());
    assert_eq!(
        response.headers,
        header_pairs(&[("server", "one"), ("date", "today")])
    );
}

#[test]
fn build_url_joins_base_and_path() {
    let url = build_url("https://homeserver.example", "/_matrix/client/versions").unwrap();
    assert_eq!(url, "https://homeserver.example/_matrix/client/versions");
    assert!(build_url("homeserver.example", "/x").is_none());
    assert!(build_url("ftp://homeserver.example", "/x").is_none());
    assert!(build_url("http://homeserver.example", "/x").is_some());
}

#[test]
fn auth_headers_carry_the_bearer_token() {
    let headers = auth_header_vec(Some("token123"));
    assert_eq!(
        headers,
        header_pairs(&[("authorization", "Bearer token123")])
    );
    assert!(auth_header_vec(None).is_empty());
}

#[test]
fn decode_failure_recognizes_the_error_envelope() {
    let fault = decode_failure(429, b"{\"errcode\":\"M_LIMIT_EXCEEDED\"}");
    match fault {
        Error::Protocol(protocol) => {
            assert_eq!(protocol.status, 429);
            assert_eq!(protocol.errcode, b"M_LIMIT_EXCEEDED".to_vec());
        }
        other => panic!("expected a protocol error, got {:?}", other),
    }
    assert!(matches!(
        decode_failure(500, b"not json"),
        Error::ResponseDecode
    ));
    assert!(matches!(
        decode_failure(500, b"{\"errcode\":\"M_UNTERMINATED"),
        Error::ResponseDecode
    ));
}

#[test]
fn pattern_scan_finds_the_first_occurrence() {
    assert_eq!(find_pattern(b"xxabcabc", b"abc"), Some(2));
    assert_eq!(find_pattern(b"xxabc", b"abd"), None);
    assert_eq!(find_byte(b"a\"b\"c", 34, 0), Some(1));
    assert_eq!(find_byte(b"a\"b\"c", 34, 2), Some(3));
    assert_eq!(find_byte(b"abc", 34, 0), None);
}

#[test]
fn number_scan_reads_the_digit_run() {
    assert_eq!(parse_number_at(b"a12345b", 1), Some(12345));
    assert_eq!(parse_number_at(b"a12345b", 2), Some(2345));
    assert_eq!(parse_number_at(b"ab", 1), None);
    assert_eq!(parse_number_at(b"9999999999999999999", 0), Some(9999999999999999999));
    assert_eq!(parse_number_at(b"99999999999999999999", 0), None);
}
