use scratch_server::request::{accept_head_line, body_length, parse_body, parse_http, HeadStep};
use scratch_server::text_map::TextMap;

fn headers(pairs: &[(&str, &str)]) -> TextMap {
    let mut map = TextMap::new();
    for (key, value) in pairs {
        map.insert(key.to_string(), value.to_string());
    }
    map
}

fn json_text(error: &scratch_server::errors::api_error::ApiError) -> String {
    match &error.error_response.body {
        Some(scratch_server::http_response::Body::Json(text)) => text.clone(),
        other => panic!("unexpected body {:?}", other),
    }
}

#[test]
fn head_lines_are_accumulated_until_the_blank_line() {
    let mut request = String::new();
    assert_eq!(accept_head_line(&mut request, "GET / HTTP/1.1\r\n"), HeadStep::More);
    assert_eq!(accept_head_line(&mut request, "Host: x\r\n"), HeadStep::More);
    assert_eq!(accept_head_line(&mut request, "\r\n"), HeadStep::Complete);
    assert_eq!(request, "GET / HTTP/1.1\r\nHost: x\r\n\r\n");
}

#[test]
fn end_of_stream_truncates_the_head() {
    let mut request = String::from("GET / HTTP/1.1\r\n");
    assert_eq!(accept_head_line(&mut request, ""), HeadStep::Truncated);
    assert_eq!(request, "GET / HTTP/1.1\r\n");
    assert!(parse_http(&request).is_err());
}

#[test]
fn parses_request_line_and_headers() {
    let (method, target, headers) = parse_http(
        "POST /api/files?path=a HTTP/1.1\r\nHost: localhost:7878\r\nContent-Type:  text/plain \r\n\
         X-Empty:\r\n\r\n",
    )
    .unwrap();
    assert_eq!(method, "POST");
    assert_eq!(target, "/api/files?path=a");
    assert_eq!(headers.get("Host").unwrap(), "localhost:7878");
    assert_eq!(headers.get("Content-Type").unwrap(), "text/plain");
    assert_eq!(headers.get("X-Empty").unwrap(), "");
    assert!(headers.get("host").is_none());
    assert!(headers.get("Missing").is_none());
}

#[test]
fn request_without_headers() {
    let (method, target, headers) = parse_http("GET /static/index.html HTTP/1.1\r\n\r\n").unwrap();
    assert_eq!(method, "GET");
    assert_eq!(target, "/static/index.html");
    assert!(!headers.contains_key("Host"));
}

#[test]
fn header_names_are_not_trimmed() {
    let (_, _, headers) = parse_http("GET / HTTP/1.1\r\n Name : value\r\n\r\n").unwrap();
    assert_eq!(headers.get(" Name ").unwrap(), "value");
    assert!(headers.get("Name").is_none());
}

#[test]
fn later_header_replaces_earlier() {
    let (_, _, headers) = parse_http("GET / HTTP/1.1\r\nA: 1\r\nA: 2\r\n\r\n").unwrap();
    assert_eq!(headers.get("A").unwrap(), "2");
}

#[test]
fn whatever_follows_the_blank_line_is_ignored() {
    let (method, _, headers) =
        parse_http("GET / HTTP/1.1\r\nA: 1\r\n\r\nB: 2\r\nnot a header").unwrap();
    assert_eq!(method, "GET");
    assert!(headers.contains_key("A"));
    assert!(!headers.contains_key("B"));
}

#[test]
fn malformed_requests_are_rejected() {
    let cases = [
        "",
        "\r\n",
        "\r\n\r\n",
        "GET / HTTP/1.1\r\n",
        "GET /\r\n\r\n",
        "GET\r\n\r\n",
        "GET / HTTP/1.1 extra\r\n\r\n",
        "GET / HTTP/2\r\n\r\n",
        "GET / FTP\r\n\r\n",
        "GET / HTTP/1.1\r\nno colon here\r\n\r\n",
        "GET / HTTP/1.1\r\nA: 1\r\nbroken\r\nB: 2\r\n\r\n",
    ];
    for request in cases {
        match parse_http(request) {
            Err(error) => assert_eq!(
                error.message,
                "An error occurred while parsing the HTTP request",
                "{:?}",
                request
            ),
            Ok(_) => panic!("accepted {:?}", request),
        }
    }
}

#[test]
fn version_must_begin_with_http_1() {
    assert!(parse_http("GET / HTTP/1.0\r\n\r\n").is_ok());
    assert!(parse_http("GET / HTTP/1.\r\n\r\n").is_ok());
    assert!(parse_http("GET / http/1.1\r\n\r\n").is_err());
}

#[test]
fn runs_of_whitespace_separate_the_words() {
    let (method, target, _) = parse_http("  GET \t /x   HTTP/1.1 \r\n\r\n").unwrap();
    assert_eq!(method, "GET");
    assert_eq!(target, "/x");
}

#[test]
fn no_content_length_means_no_body() {
    assert_eq!(body_length(&headers(&[])).unwrap(), None);
    assert_eq!(parse_body(&headers(&[("Host", "x")]), b"ignored").unwrap(), None);
}

#[test]
fn body_is_bounded_by_content_length() {
    let h = headers(&[("Content-Length", "5")]);
    assert_eq!(body_length(&h).unwrap(), Some(5));
    assert_eq!(parse_body(&h, b"hello world").unwrap().unwrap(), "hello");
    assert_eq!(parse_body(&h, b"hey").unwrap().unwrap(), "hey");
    assert_eq!(parse_body(&headers(&[("Content-Length", "0")]), b"x").unwrap().unwrap(), "");
}

#[test]
fn invalid_bytes_are_replaced() {
    let h = headers(&[("Content-Length", "4")]);
    assert_eq!(parse_body(&h, &[b'a', 0xff, b'b', 0xc3]).unwrap().unwrap(), "a\u{fffd}b\u{fffd}");
}

#[test]
fn bad_content_length_is_reported() {
    let cases = [
        ("", "cannot parse integer from empty string"),
        ("abc", "invalid digit found in string"),
        ("-1", "invalid digit found in string"),
        ("1.5", "invalid digit found in string"),
        ("99999999999999999999999999", "number too large to fit in target type"),
    ];
    for (value, message) in cases {
        let error = parse_body(&headers(&[("Content-Length", value)]), b"").unwrap_err();
        assert_eq!(error.error_response.status_code, 500);
        assert_eq!(json_text(&error), format!("{{\"message\":\"{}\"}}", message));
    }
}
