//! Responses: the head of an answer, as the bytes that are sent.

use crate::headers::{append_header, list_headers, new_headers, MAX_ENTRIES};
use crate::text::{push_bytes, push_text};
use vstd::prelude::*;

verus! {

/// The name of this server.
pub const SERVER: &'static str = "scrs-serve/0.1.0";

/// The character of a decimal digit.
pub open spec fn digit(n: int) -> char {
    ('0' as int + n) as char
}

/// A number of three digits in decimal.
pub open spec fn three_digits(code: int) -> Seq<char> {
    seq![digit(code / 100), digit(code / 10 % 10), digit(code % 10)]
}

/// Calls `http::StatusCode::as_str`, which writes a status code with three digits.
#[verifier::external_body]
pub(crate) fn status_text(code: u16) -> (r: String)
    requires
        100 <= code <= 999,
    ensures
        r@ == three_digits(code as int),
{
    http::StatusCode::from_u16(code).unwrap().as_str().to_string()
}

/// The phrase that is commonly sent with a status code, where there is one.
pub uninterp spec fn http_reason(code: u16) -> Option<Seq<char>>;

/// Calls `http::StatusCode::canonical_reason`. The phrases of the codes that this
/// server sends are stated.
#[verifier::external_body]
pub(crate) fn canonical_reason(code: u16) -> (r: Option<&'static str>)
    requires
        100 <= code <= 999,
    ensures
        crate::text::optional_str(r) == http_reason(code),
        code == 100 ==> crate::text::optional_str(r) == Some("Continue"@),
        code == 200 ==> crate::text::optional_str(r) == Some("OK"@),
        code == 403 ==> crate::text::optional_str(r) == Some("Forbidden"@),
        code == 404 ==> crate::text::optional_str(r) == Some("Not Found"@),
{
    http::StatusCode::from_u16(code).unwrap().canonical_reason()
}

/// The lines of the fields, each a name, a colon and a value.
pub open spec fn field_bytes(lines: Seq<(Seq<char>, Seq<u8>)>) -> Seq<u8>
    decreases lines.len(),
{
    if lines.len() == 0 {
        seq![]
    } else {
        let (name, value) = lines.last();
        field_bytes(lines.drop_last()) + vstd::utf8::encode_utf8(name)
            + vstd::utf8::encode_utf8(": "@) + value + vstd::utf8::encode_utf8("\r\n"@)
    }
}

/// The head of a response: the status line, the fields and an empty line.
pub open spec fn head_bytes(
    code: int,
    reason: Seq<char>,
    lines: Seq<(Seq<char>, Seq<u8>)>,
) -> Seq<u8> {
    vstd::utf8::encode_utf8("HTTP/1.1 "@) + vstd::utf8::encode_utf8(three_digits(code))
        + vstd::utf8::encode_utf8(" "@) + vstd::utf8::encode_utf8(reason)
        + vstd::utf8::encode_utf8("\r\n"@) + field_bytes(lines) + vstd::utf8::encode_utf8("\r\n"@)
}

/// The reason that is sent with a status code where no other is given.
pub open spec fn common_reason(code: u16) -> Seq<char> {
    if code == 100 {
        "Continue"@
    } else if code == 200 {
        "OK"@
    } else if code == 403 {
        "Forbidden"@
    } else if code == 404 {
        "Not Found"@
    } else {
        match http_reason(code) {
            Some(reason) => reason,
            None => "unknown error"@,
        }
    }
}

/// The reason that stands in the status line: the one that is given, or else the
/// common one.
pub open spec fn reason_words(code: u16, reason: Seq<char>) -> Seq<char> {
    if reason.len() > 0 {
        reason
    } else {
        common_reason(code)
    }
}

/// The head of a response.
pub struct Response {
    status: u16,
    headers: http::HeaderMap<http::HeaderValue>,
}

/// What a [`Response`] holds.
pub struct ResponseView {
    pub status: u16,
    pub headers: Seq<(Seq<char>, Seq<Seq<u8>>)>,
}

impl View for Response {
    type V = ResponseView;

    closed spec fn view(&self) -> ResponseView {
        ResponseView {
            status: self.status,
            headers: crate::headers::header_entries(self.headers),
        }
    }
}

/// An entry of a header map with one text as its value.
pub open spec fn entry(name: Seq<char>, value: Seq<char>) -> (Seq<char>, Seq<Seq<u8>>) {
    (name, seq![vstd::utf8::encode_utf8(value)])
}

/// The headers that every response has.
pub open spec fn common_headers() -> Seq<(Seq<char>, Seq<Seq<u8>>)> {
    seq![
        entry("server"@, SERVER@),
        entry("accept-encoding"@, "identity"@),
        entry("connection"@, "keep-alive"@),
        entry("access-control-allow-origin"@, "*"@),
    ]
}

/// The names and values that this server sends are names and values of header
/// fields, and the names differ.
pub(crate) proof fn lemma_sent()
    ensures
        crate::headers::valid_name("Server"@),
        crate::headers::lower("Server"@) == "server"@,
        crate::headers::valid_name("Accept-Encoding"@),
        crate::headers::lower("Accept-Encoding"@) == "accept-encoding"@,
        crate::headers::valid_name("Connection"@),
        crate::headers::lower("Connection"@) == "connection"@,
        crate::headers::valid_name("Access-Control-Allow-Origin"@),
        crate::headers::lower("Access-Control-Allow-Origin"@) == "access-control-allow-origin"@,
        crate::headers::valid_name("Content-Type"@),
        crate::headers::lower("Content-Type"@) == "content-type"@,
        crate::headers::valid_name("Allow"@),
        crate::headers::lower("Allow"@) == "allow"@,
        crate::headers::valid_text(SERVER@),
        crate::headers::valid_text("identity"@),
        crate::headers::valid_text("keep-alive"@),
        crate::headers::valid_text("*"@),
        crate::headers::valid_text("Close"@),
        crate::headers::valid_text("PUT, SOURCE"@),
        crate::headers::valid_text("application/json"@),
        "server"@.len() == 6,
        "accept-encoding"@.len() == 15,
        "connection"@.len() == 10,
        "access-control-allow-origin"@.len() == 27,
        "content-type"@.len() == 12,
        "allow"@.len() == 5,
{
    reveal_strlit("Server");
    reveal_strlit("server");
    reveal_strlit("Accept-Encoding");
    reveal_strlit("accept-encoding");
    reveal_strlit("Connection");
    reveal_strlit("connection");
    reveal_strlit("Access-Control-Allow-Origin");
    reveal_strlit("access-control-allow-origin");
    reveal_strlit("Content-Type");
    reveal_strlit("content-type");
    reveal_strlit("Allow");
    reveal_strlit("allow");
    reveal_strlit("scrs-serve/0.1.0");
    reveal_strlit("identity");
    reveal_strlit("keep-alive");
    reveal_strlit("*");
    reveal_strlit("Close");
    reveal_strlit("PUT, SOURCE");
    reveal_strlit("application/json");
    assert(crate::headers::lower("Server"@) =~= "server"@);
    assert(crate::headers::lower("Accept-Encoding"@) =~= "accept-encoding"@);
    assert(crate::headers::lower("Connection"@) =~= "connection"@);
    assert(crate::headers::lower("Access-Control-Allow-Origin"@)
        =~= "access-control-allow-origin"@);
    assert(crate::headers::lower("Content-Type"@) =~= "content-type"@);
    assert(crate::headers::lower("Allow"@) =~= "allow"@);
}

impl Response {
    /// A successful response with the headers that every response has.
    pub fn new() -> (r: Response)
        ensures
            r@ == (ResponseView { status: 200, headers: common_headers() }),
    {
        proof {
            lemma_sent();
        }
        let mut r = Response { status: 200, headers: new_headers() };
        proof {
            crate::headers::lemma_found(r@.headers, "server"@, 0);
        }
        r.header("Server", SERVER);
        proof {
            crate::headers::lemma_found(r@.headers, "accept-encoding"@, 1);
        }
        r.header("Accept-Encoding", "identity");
        proof {
            crate::headers::lemma_found(r@.headers, "connection"@, 2);
        }
        r.header("Connection", "keep-alive");
        proof {
            crate::headers::lemma_found(r@.headers, "access-control-allow-origin"@, 3);
        }
        r.header("Access-Control-Allow-Origin", "*");
        assert(r@.headers =~= common_headers());
        r
    }

    /// Adds a value to a header.
    pub fn header(&mut self, name: &str, value: &str)
        requires
            crate::headers::valid_name(name@),
            crate::headers::valid_text(value@),
            old(self)@.headers.len() < MAX_ENTRIES,
        ensures
            final(self)@ == (ResponseView {
                status: old(self)@.status,
                headers: crate::headers::appended(
                    old(self)@.headers,
                    crate::headers::lower(name@),
                    vstd::utf8::encode_utf8(value@),
                ),
            }),
    {
        append_header(&mut self.headers, name, value);
    }

    /// Sets the status code.
    pub fn status(&mut self, code: u16)
        requires
            100 <= code <= 999,
        ensures
            final(self)@ == (ResponseView { status: code, headers: old(self)@.headers }),
    {
        self.status = code;
    }

    /// The bytes of the head. The reason is the common one where none is given.
    pub fn encode(&self, reason: &str) -> (r: Vec<u8>)
        requires
            100 <= self@.status <= 999,
        ensures
            r@ == head_bytes(
                self@.status as int,
                reason_words(self@.status, reason@),
                crate::headers::field_lines(self@.headers),
            ),
    {
        let reason: &str = if reason.is_empty() {
            match canonical_reason(self.status) {
                Some(reason) => reason,
                None => "unknown error",
            }
        } else {
            reason
        };
        let mut out: Vec<u8> = Vec::new();
        push_text(&mut out, "HTTP/1.1 ");
        push_text(&mut out, status_text(self.status).as_str());
        push_text(&mut out, " ");
        push_text(&mut out, reason);
        push_text(&mut out, "\r\n");
        let ghost start = out@;
        let lines = list_headers(&self.headers);
        let ghost all = crate::headers::fields_view(lines@);
        assert(field_bytes(all.take(0)) =~= seq![]);
        assert(out@ =~= start + field_bytes(all.take(0)));
        let mut i: usize = 0;
        while i < lines.len()
            invariant
                i <= lines@.len(),
                all == crate::headers::fields_view(lines@),
                out@ == start + field_bytes(all.take(i as int)),
            decreases lines@.len() - i,
        {
            push_text(&mut out, lines[i].0.as_str());
            push_text(&mut out, ": ");
            push_bytes(&mut out, lines[i].1.as_slice());
            push_text(&mut out, "\r\n");
            proof {
                assert(all.take(i + 1).drop_last() =~= all.take(i as int));
                assert(out@ =~= start + field_bytes(all.take(i + 1)));
            }
            i = i + 1;
        }
        assert(all.take(i as int) =~= all);
        push_text(&mut out, "\r\n");
        assert(out@ =~= head_bytes(self@.status as int, reason@, all));
        out
    }
}

} // verus!
