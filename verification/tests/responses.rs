use scrs_serve::error::{HandlerError, ParseError};
use scrs_serve::request::read_request;
use scrs_serve::response::Response;
use scrs_serve::text::{join, push_bytes, push_text, same_bytes, same_text};

const COMMON: &str = "server: scrs-serve/0.1.0\r\naccept-encoding: identity\r\nconnection: keep-alive\r\naccess-control-allow-origin: *\r\n";

fn text(bytes: Vec<u8>) -> String {
    String::from_utf8(bytes).unwrap()
}

#[test]
fn common_response() {
    let response = Response::new();
    assert_eq!(text(response.encode("")), format!("HTTP/1.1 200 OK\r\n{}\r\n", COMMON));
    assert_eq!(text(response.encode("Fine")), format!("HTTP/1.1 200 Fine\r\n{}\r\n", COMMON));
}

#[test]
fn reasons_of_codes() {
    for (code, reason) in [
        (100, "Continue"),
        (200, "OK"),
        (403, "Forbidden"),
        (404, "Not Found"),
        (503, "Service Unavailable"),
        (999, "unknown error"),
    ] {
        let mut response = Response::new();
        response.status(code);
        let line = format!("HTTP/1.1 {} {}\r\n", code, reason);
        assert!(text(response.encode("")).starts_with(&line), "{}", line);
    }
}

#[test]
fn values_of_one_name_stand_together() {
    let mut response = Response::new();
    response.header("X-Last", "caf\u{e9}");
    response.header("CONNECTION", "Close");
    response.header("connection", "x");
    assert_eq!(
        text(response.encode("")),
        "HTTP/1.1 200 OK\r\nserver: scrs-serve/0.1.0\r\naccept-encoding: identity\r\n\
         connection: keep-alive\r\nconnection: Close\r\nconnection: x\r\n\
         access-control-allow-origin: *\r\nx-last: caf\u{e9}\r\n\r\n"
    );
}

#[test]
fn error_messages() {
    let e = HandlerError::RequestError(ParseError::Token);
    assert_eq!(e.message(), "failed to parse request from client: `invalid token`");
    let e = HandlerError::ResponseError("empty string".to_string());
    assert_eq!(e.message(), "failed to create response for client: `empty string`");
    assert_eq!(
        HandlerError::InvalidHttp.message(),
        "other side didn't send valid a valid http request"
    );
    let e = HandlerError::JsonWriteError("x".to_string());
    assert_eq!(e.message(), "failed to create JSON blob response for client: `x`");
    let e = HandlerError::IoError("broken pipe".to_string());
    assert_eq!(e.message(), "i/o failed for client: `broken pipe`");
    let e = HandlerError::StreamDisconnected("sending on a closed channel".to_string());
    assert_eq!(
        e.message(),
        "source attempted to stream data, but the stream no longer exists: `sending on a closed channel`"
    );
    assert_eq!(
        HandlerError::StreamAlreadyConnected.message(),
        "source is already connected to the requested mountpoint"
    );
    let e = HandlerError::UnsupportedContentType {
        actual: "audio/ogg".to_string(),
        expected: "audio/mpeg".to_string(),
    };
    assert_eq!(
        e.message(),
        "source attempted to stream mime-type audio/ogg whereas the stream is defined as audio/mpeg"
    );
    let req = read_request(b"GET /a?b HTTP/1.1\r\n\r\n").unwrap().unwrap();
    assert_eq!(HandlerError::EndpointNotFound(req).message(), "endpoint not found: `GET /a?b`");
}

#[test]
fn parse_error_messages() {
    for (e, message) in [
        (ParseError::HeaderName, httparse::Error::HeaderName.to_string()),
        (ParseError::HeaderValue, httparse::Error::HeaderValue.to_string()),
        (ParseError::NewLine, httparse::Error::NewLine.to_string()),
        (ParseError::Status, httparse::Error::Status.to_string()),
        (ParseError::Token, httparse::Error::Token.to_string()),
        (ParseError::TooManyHeaders, httparse::Error::TooManyHeaders.to_string()),
        (ParseError::Version, httparse::Error::Version.to_string()),
    ] {
        assert_eq!(e.message(), message);
    }
}

#[test]
fn texts_and_bytes() {
    assert!(same_bytes(b"ab", b"ab"));
    assert!(!same_bytes(b"ab", b"ac"));
    assert!(!same_bytes(b"ab", b"a"));
    assert!(same_text("\u{e9}", "\u{e9}"));
    assert!(!same_text("a", "A"));
    assert_eq!(join("a", "", "c"), "ac");
    let mut out = b"a".to_vec();
    push_bytes(&mut out, b"\xff");
    push_text(&mut out, "\u{e9}");
    assert_eq!(out, b"a\xff\xc3\xa9");
}
