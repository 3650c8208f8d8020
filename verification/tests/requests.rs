use scrs_serve::error::{HandlerError, ParseError};
use scrs_serve::request::{header_bytes_or_empty, read_request, ParsedRequest, Request, Uri};

fn read(text: &str) -> Option<Result<Request, HandlerError>> {
    read_request(text.as_bytes())
}

fn request(text: &str) -> Request {
    match read(text) {
        Some(Ok(req)) => req,
        other => panic!("no request: {:?}", other),
    }
}

#[test]
fn reads_method_target_and_headers() {
    let req = request("PUT /stream?a=1#x HTTP/1.1\r\nContent-Type: audio/mpeg\r\nHost: a\r\n\r\n");
    assert_eq!(req.method(), "PUT");
    assert_eq!(req.uri().text, "/stream?a=1");
    assert_eq!(req.uri().path, "/stream");
    assert_eq!(req.uri().query, Some("a=1".to_string()));
    assert_eq!(header_bytes_or_empty(&req, "content-type"), b"audio/mpeg");
    assert_eq!(header_bytes_or_empty(&req, "CONTENT-TYPE"), b"audio/mpeg");
    assert_eq!(header_bytes_or_empty(&req, "host"), b"a");
    assert_eq!(req.headers().len(), 2);
}

#[test]
fn missing_header_is_empty() {
    let req = request("GET / HTTP/1.1\r\nHost: a\r\n\r\n");
    assert_eq!(header_bytes_or_empty(&req, "expect"), b"");
    assert_eq!(header_bytes_or_empty(&req, "not a name"), b"");
    assert_eq!(header_bytes_or_empty(&req, ""), b"");
}

#[test]
fn last_header_of_a_name_counts() {
    let req = request("GET / HTTP/1.1\r\nIce-Name: one\r\nHost: a\r\nice-name: two\r\nICE-NAME: three\r\n\r\n");
    assert_eq!(header_bytes_or_empty(&req, "ice-name"), b"three");
    assert_eq!(header_bytes_or_empty(&req, "host"), b"a");
    assert_eq!(req.headers().len(), 2);
}

#[test]
fn target_without_query() {
    let req = request("GET /metadata HTTP/1.1\r\n\r\n");
    assert_eq!(req.uri().path, "/metadata");
    assert_eq!(req.uri().query, None);
    let req = request("GET /metadata? HTTP/1.1\r\n\r\n");
    assert_eq!(req.uri().path, "/metadata");
    assert_eq!(req.uri().query, Some(String::new()));
    assert_eq!(req.uri().text, "/metadata?");
}

#[test]
fn absolute_target() {
    let req = request("GET http://example.org/listen.mp3?x HTTP/1.1\r\n\r\n");
    assert_eq!(req.uri().path, "/listen.mp3");
    assert_eq!(req.uri().query, Some("x".to_string()));
    assert_eq!(req.uri().text, "http://example.org/listen.mp3?x");
}

#[test]
fn parse_errors() {
    assert!(matches!(
        read("G\u{1}T / HTTP/1.1\r\n\r\n"),
        Some(Err(HandlerError::RequestError(ParseError::Token)))
    ));
    assert!(matches!(
        read("GET / HTTP/3.1\r\n\r\n"),
        Some(Err(HandlerError::RequestError(ParseError::Version)))
    ));
    assert!(matches!(
        read("GET / HTTP/1.1\rX"),
        Some(Err(HandlerError::RequestError(ParseError::NewLine)))
    ));
    assert!(matches!(
        read("GET / HTTP/1.1\r\nA b: c\r\n\r\n"),
        Some(Err(HandlerError::RequestError(ParseError::HeaderName)))
    ));
    assert!(matches!(
        read("GET / HTTP/1.1\r\nA: \u{1}\r\n\r\n"),
        Some(Err(HandlerError::RequestError(ParseError::HeaderValue)))
    ));
}

#[test]
fn room_for_sixteen_headers() {
    let head = |n: usize| {
        let mut text = String::from("GET / HTTP/1.1\r\n");
        for i in 0..n {
            text.push_str(&format!("X-{}: {}\r\n", i, i));
        }
        text.push_str("\r\n");
        text
    };
    let req = request(&head(16));
    assert_eq!(req.headers().len(), 16);
    assert_eq!(header_bytes_or_empty(&req, "x-15"), b"15");
    assert!(matches!(
        read(&head(17)),
        Some(Err(HandlerError::RequestError(ParseError::TooManyHeaders)))
    ));
}

#[test]
fn half_a_request_line_is_no_request() {
    assert!(matches!(read("GET"), Some(Err(HandlerError::InvalidHttp))));
    assert!(matches!(read("GET /stre"), Some(Err(HandlerError::InvalidHttp))));
    assert!(matches!(read("\r\n"), Some(Err(HandlerError::InvalidHttp))));
}

#[test]
fn unfinished_headers_have_an_empty_name() {
    assert!(matches!(
        read("GET / HTTP/1.1\r\nHost: a\r\n"),
        Some(Err(HandlerError::RequestError(ParseError::HeaderName)))
    ));
}

#[test]
fn bad_request_line_with_headers_has_no_answer() {
    assert!(read("(GET) / HTTP/1.1\r\nHost: a\r\n\r\n").is_none());
    assert!(read("GET :: HTTP/1.1\r\nHost: a\r\n\r\n").is_none());
}

#[test]
fn bad_request_line_without_headers_is_an_error() {
    match read("(GET) / HTTP/1.1\r\n\r\n") {
        Some(Err(HandlerError::ResponseError(e))) => assert_eq!(e, "invalid HTTP method"),
        other => panic!("{:?}", other),
    }
    assert!(matches!(
        read("GET :: HTTP/1.1\r\n\r\n"),
        Some(Err(HandlerError::ResponseError(_)))
    ));
    let long = format!("GET /{} HTTP/1.1\r\n\r\n", "a".repeat(70000));
    match read(&long) {
        Some(Err(HandlerError::ResponseError(e))) => assert_eq!(e, "uri too long"),
        other => panic!("{:?}", other),
    }
}

#[test]
fn parsed_heads() {
    let parsed = ParsedRequest { method: None, path: Some("/".to_string()), version: None, headers: vec![] };
    assert!(parsed.is_buildable());
    assert!(matches!(Request::try_from(parsed), Err(HandlerError::InvalidHttp)));
    let parsed = ParsedRequest {
        method: Some("GET".to_string()),
        path: None,
        version: Some(1),
        headers: vec![("A".to_string(), b"b".to_vec())],
    };
    assert!(parsed.is_buildable());
    assert!(matches!(Request::try_from(parsed), Err(HandlerError::InvalidHttp)));
    let parsed = ParsedRequest {
        method: Some("G T".to_string()),
        path: Some("/".to_string()),
        version: Some(1),
        headers: vec![("A".to_string(), b"b".to_vec())],
    };
    assert!(!parsed.is_buildable());
}

fn assemble(headers: Vec<(&str, &[u8])>) -> Result<Request, HandlerError> {
    let headers = headers.into_iter().map(|(n, v)| (n.to_string(), v.to_vec())).collect();
    let uri = Uri { text: "/a?b".to_string(), path: "/a".to_string(), query: Some("b".to_string()) };
    Request::assemble(Ok("GET".to_string()), Ok(uri), &headers)
}

#[test]
fn assembled_requests() {
    let req = assemble(vec![("A", b"1"), ("B", b"\xff 2"), ("a", b"3")]).unwrap();
    assert_eq!(req.method(), "GET");
    assert_eq!(req.uri().path, "/a");
    assert_eq!(header_bytes_or_empty(&req, "a"), b"3");
    assert_eq!(header_bytes_or_empty(&req, "b"), b"\xff 2");
    assert!(matches!(
        assemble(vec![("A", b"1"), ("B:", b"\n"), ("", b"")]),
        Err(HandlerError::RequestError(ParseError::HeaderName))
    ));
    assert!(matches!(
        assemble(vec![("A", b"\n"), ("B:", b"")]),
        Err(HandlerError::RequestError(ParseError::HeaderValue))
    ));
    assert!(matches!(
        assemble(vec![("A", b"\x7f")]),
        Err(HandlerError::RequestError(ParseError::HeaderValue))
    ));
    assert!(assemble(vec![("A", b"\t\x80")]).is_ok());
    let none = vec![];
    assert!(matches!(
        Request::assemble(Err("m".to_string()), Err("u".to_string()), &none),
        Err(HandlerError::ResponseError(e)) if e == "m"
    ));
    assert!(matches!(
        Request::assemble(Ok("GET".to_string()), Err("u".to_string()), &none),
        Err(HandlerError::ResponseError(e)) if e == "u"
    ));
}

#[test]
fn every_name_character() {
    for b in 0u8..=255 {
        let name = (b as char).to_string();
        let valid = b.is_ascii_alphanumeric() || b"!\"#$%&'*+-.^_`|~".contains(&b);
        assert_eq!(assemble(vec![(name.as_str(), b"x")]).is_ok(), valid, "{}", b);
        let value = [b];
        let valid = b >= 32 && b != 127 || b == 9;
        assert_eq!(assemble(vec![("a", &value[..])]).is_ok(), valid, "{}", b);
    }
    assert!(assemble(vec![("a".repeat(65535).as_str(), b"x")]).is_ok());
    assert!(assemble(vec![("a".repeat(65536).as_str(), b"x")]).is_err());
    let long = "Ab".repeat(50);
    let req = assemble(vec![(long.as_str(), b"x")]).unwrap();
    assert_eq!(header_bytes_or_empty(&req, &long), b"x");
    assert_eq!(header_bytes_or_empty(&req, &long.to_lowercase()), b"x");
}

#[test]
fn every_method_character() {
    for b in 1u8..128 {
        let parsed = ParsedRequest {
            method: Some((b as char).to_string()),
            path: Some("/".to_string()),
            version: Some(1),
            headers: vec![("a".to_string(), b"b".to_vec())],
        };
        let valid = b.is_ascii_alphanumeric() || b"!*+-.^_`|~".contains(&b);
        assert_eq!(parsed.is_buildable(), valid, "{}", b);
    }
}

#[test]
fn version_is_always_the_same() {
    let parsed = ParsedRequest {
        method: Some("SOURCE".to_string()),
        path: Some("/stream?x=1".to_string()),
        version: Some(0),
        headers: vec![],
    };
    let req = Request::try_from(parsed).unwrap();
    assert_eq!(req.version(), "HTTP/1.1");
    assert_eq!(req.method(), "SOURCE");
    assert_eq!(req.uri().path, "/stream");
    assert_eq!(req.uri().query.as_deref(), Some("x=1"));
    assert!(req.headers().is_empty());
    assert_eq!(request("GET / HTTP/1.0\r\n\r\n").version(), "HTTP/1.1");
    assert_eq!(request("GET / HTTP/1.1\r\n\r\n").version(), "HTTP/1.1");
}

#[test]
fn each_header_has_one_value() {
    let req = assemble(vec![("A", b"1"), ("B", b"2"), ("a", b"3"), ("A", b"4")]).unwrap();
    let values: Vec<_> = req.headers().get_all("a").iter().map(|v| v.as_bytes()).collect();
    assert_eq!(values, vec![b"4"]);
    let values: Vec<_> = req.headers().get_all("B").iter().map(|v| v.as_bytes()).collect();
    assert_eq!(values, vec![b"2"]);
    assert_eq!(req.headers().get_all("c").iter().count(), 0);
    assert_eq!(req.headers().len(), 2);
}

#[test]
fn number_of_headers_does_not_count_without_a_request_line() {
    let parsed = ParsedRequest {
        method: None,
        path: None,
        version: None,
        headers: (0..5000).map(|i| (format!("h{}", i), vec![])).collect(),
    };
    assert!(parsed.is_buildable());
    assert!(matches!(Request::try_from(parsed), Err(HandlerError::InvalidHttp)));
}
