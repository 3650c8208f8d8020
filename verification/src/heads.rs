//! What the answers of the server say, as the text that is sent.

use crate::handler::{ActionView, SessionView};
use crate::request::RequestView;
use crate::stream::StreamView;
use vstd::prelude::*;

verus! {

/// The encoding of two texts, one behind the other.
pub proof fn lemma_encode(a: Seq<char>, b: Seq<char>)
    ensures
        vstd::utf8::encode_utf8(a + b) == vstd::utf8::encode_utf8(a) + vstd::utf8::encode_utf8(b),
    decreases a.len(),
{
    if a.len() == 0 {
        assert(a + b =~= b);
        assert(vstd::utf8::encode_utf8(a) + vstd::utf8::encode_utf8(b)
            =~= vstd::utf8::encode_utf8(b));
    } else {
        assert((a + b).drop_first() =~= a.drop_first() + b);
        lemma_encode(a.drop_first(), b);
        let first = vstd::utf8::encode_scalar(a[0] as u32);
        assert(vstd::utf8::encode_utf8(a + b) =~= first + (vstd::utf8::encode_utf8(a.drop_first())
            + vstd::utf8::encode_utf8(b)));
        assert(vstd::utf8::encode_utf8(a) + vstd::utf8::encode_utf8(b) =~= first + (
        vstd::utf8::encode_utf8(a.drop_first()) + vstd::utf8::encode_utf8(b)));
    }
}

/// A head grows line by line: the first one is the status line and an empty line,
/// and each field adds its name, a colon, a space and its value, before the empty
/// line.
pub proof fn law_head_grows(
    code: int,
    reason: Seq<char>,
    lines: Seq<(Seq<char>, Seq<u8>)>,
    name: Seq<char>,
    value: Seq<u8>,
)
    ensures
        crate::response::head_bytes(code, reason, seq![]) == vstd::utf8::encode_utf8(
            "HTTP/1.1 "@ + crate::response::three_digits(code) + " "@ + reason + "\r\n\r\n"@,
        ),
        ({
            let before = crate::response::head_bytes(code, reason, lines);
            &&& before.len() >= 2
            &&& before.skip(before.len() - 2) == vstd::utf8::encode_utf8("\r\n"@)
            &&& crate::response::head_bytes(code, reason, lines.push((name, value)))
                == before.take(before.len() - 2) + vstd::utf8::encode_utf8(name + ": "@) + value
                + vstd::utf8::encode_utf8("\r\n\r\n"@)
        }),
{
    let start = "HTTP/1.1 "@ + crate::response::three_digits(code) + " "@ + reason;
    lemma_encode("HTTP/1.1 "@, crate::response::three_digits(code));
    lemma_encode("HTTP/1.1 "@ + crate::response::three_digits(code), " "@);
    lemma_encode("HTTP/1.1 "@ + crate::response::three_digits(code) + " "@, reason);
    lemma_encode(start, "\r\n\r\n"@);
    lemma_encode("\r\n"@, "\r\n"@);
    lemma_encode(name, ": "@);
    lemma_line_end();
    assert(crate::response::field_bytes(seq![]) =~= seq![]);
    assert(crate::response::head_bytes(code, reason, seq![]) =~= vstd::utf8::encode_utf8(
        start + "\r\n\r\n"@,
    ));
    let before = crate::response::head_bytes(code, reason, lines);
    let more = lines.push((name, value));
    assert(more.drop_last() =~= lines);
    let end = vstd::utf8::encode_utf8("\r\n"@);
    assert(before.skip(before.len() - 2) =~= end);
    assert(crate::response::head_bytes(code, reason, more) =~= before.take(before.len() - 2)
        + vstd::utf8::encode_utf8(name + ": "@) + value + vstd::utf8::encode_utf8("\r\n\r\n"@));
}

/// A line ends with two bytes.
proof fn lemma_line_end()
    ensures
        vstd::utf8::encode_utf8("\r\n"@).len() == 2,
        "\r\n\r\n"@ == "\r\n"@ + "\r\n"@,
{
    reveal_strlit("\r\n");
    reveal_strlit("\r\n\r\n");
    assert("\r\n\r\n"@ =~= "\r\n"@ + "\r\n"@);
    reveal_with_fuel(vstd::utf8::encode_utf8, 3);
    assert("\r\n"@.drop_first().drop_first().len() == 0);
    assert(vstd::utf8::encode_scalar('\r' as u32).len() == 1);
    assert(vstd::utf8::encode_scalar('\n' as u32).len() == 1);
}

/// A status code is written with its three digits, the hundreds first.
pub proof fn law_status_digits(code: int)
    requires
        100 <= code <= 999,
    ensures
        crate::response::three_digits(code).len() == 3,
        ({
            let digits = crate::response::three_digits(code);
            &&& '0' <= digits[0] <= '9' && '0' <= digits[1] <= '9' && '0' <= digits[2] <= '9'
            &&& code == (digits[0] as int - 48) * 100 + (digits[1] as int - 48) * 10 + (
            digits[2] as int - 48)
        }),
{
}

/// A reason that is given is the one that is sent. Else it is the one of the code.
pub proof fn law_reason(code: u16, reason: Seq<char>)
    ensures
        reason.len() > 0 ==> crate::response::reason_words(code, reason) == reason,
        reason.len() == 0 ==> crate::response::reason_words(code, reason) == if code == 100 {
            "Continue"@
        } else if code == 200 {
            "OK"@
        } else if code == 403 {
            "Forbidden"@
        } else if code == 404 {
            "Not Found"@
        } else if crate::response::http_reason(code) is Some {
            crate::response::http_reason(code)->0
        } else {
            "unknown error"@
        },
{
}

/// The text of lines whose values are texts.
spec fn lines_text(lines: Seq<(Seq<char>, Seq<char>)>) -> Seq<char>
    decreases lines.len(),
{
    if lines.len() == 0 {
        seq![]
    } else {
        lines_text(lines.drop_last()) + (lines.last().0 + ": "@ + lines.last().1 + "\r\n"@)
    }
}

/// The lines with the encodings of their values.
spec fn encoded(lines: Seq<(Seq<char>, Seq<char>)>) -> Seq<(Seq<char>, Seq<u8>)> {
    Seq::new(lines.len(), |i: int| crate::handler::line(lines[i].0, lines[i].1))
}

proof fn lemma_lines_text(lines: Seq<(Seq<char>, Seq<char>)>)
    ensures
        crate::response::field_bytes(encoded(lines)) == vstd::utf8::encode_utf8(lines_text(lines)),
    decreases lines.len(),
{
    if lines.len() == 0 {
        assert(encoded(lines) =~= seq![]);
    } else {
        let (name, value) = lines.last();
        let before = lines_text(lines.drop_last());
        lemma_lines_text(lines.drop_last());
        assert(encoded(lines).drop_last() =~= encoded(lines.drop_last()));
        lemma_encode(before, name + ": "@ + value + "\r\n"@);
        lemma_encode(name, ": "@);
        lemma_encode(name + ": "@, value);
        lemma_encode(name + ": "@ + value, "\r\n"@);
        assert(crate::response::field_bytes(encoded(lines)) =~= vstd::utf8::encode_utf8(
            lines_text(lines),
        ));
    }
}

proof fn lemma_head(code: int, reason: Seq<char>, lines: Seq<(Seq<char>, Seq<char>)>)
    ensures
        crate::response::head_bytes(code, reason, encoded(lines)) == vstd::utf8::encode_utf8(
            "HTTP/1.1 "@ + crate::response::three_digits(code) + " "@ + reason + "\r\n"@
                + lines_text(lines) + "\r\n"@,
        ),
{
    let digits = crate::response::three_digits(code);
    lemma_lines_text(lines);
    lemma_encode("HTTP/1.1 "@, digits);
    lemma_encode("HTTP/1.1 "@ + digits, " "@);
    lemma_encode("HTTP/1.1 "@ + digits + " "@, reason);
    lemma_encode("HTTP/1.1 "@ + digits + " "@ + reason, "\r\n"@);
    lemma_encode("HTTP/1.1 "@ + digits + " "@ + reason + "\r\n"@, lines_text(lines));
    lemma_encode(
        "HTTP/1.1 "@ + digits + " "@ + reason + "\r\n"@ + lines_text(lines),
        "\r\n"@,
    );
}

/// The lines that come first in every answer, as text.
pub open spec fn first_text() -> Seq<char> {
    "server: scrs-serve/0.1.0\r\n"@ + "accept-encoding: identity\r\n"@
        + "connection: keep-alive\r\n"@
}

proof fn lemma_line_texts()
    ensures
        "server"@ + ": "@ + crate::response::SERVER@ + "\r\n"@ == "server: scrs-serve/0.1.0\r\n"@,
        "accept-encoding"@ + ": "@ + "identity"@ + "\r\n"@ == "accept-encoding: identity\r\n"@,
        "connection"@ + ": "@ + "keep-alive"@ + "\r\n"@ == "connection: keep-alive\r\n"@,
        "connection"@ + ": "@ + "Close"@ + "\r\n"@ == "connection: Close\r\n"@,
        "access-control-allow-origin"@ + ": "@ + "*"@ + "\r\n"@
            == "access-control-allow-origin: *\r\n"@,
        "allow"@ + ": "@ + "PUT, SOURCE"@ + "\r\n"@ == "allow: PUT, SOURCE\r\n"@,
        "content-type"@ + ": "@ == "content-type: "@,
        "content-type"@ + ": "@ + "application/json"@ + "\r\n"@
            == "content-type: application/json\r\n"@,
{
    reveal_strlit(": ");
    reveal_strlit("\r\n");
    reveal_strlit("server");
    reveal_strlit("scrs-serve/0.1.0");
    reveal_strlit("server: scrs-serve/0.1.0\r\n");
    assert("server"@ + ": "@ + crate::response::SERVER@ + "\r\n"@
        =~= "server: scrs-serve/0.1.0\r\n"@);
    reveal_strlit("accept-encoding");
    reveal_strlit("identity");
    reveal_strlit("accept-encoding: identity\r\n");
    assert("accept-encoding"@ + ": "@ + "identity"@ + "\r\n"@
        =~= "accept-encoding: identity\r\n"@);
    reveal_strlit("connection");
    reveal_strlit("keep-alive");
    reveal_strlit("connection: keep-alive\r\n");
    assert("connection"@ + ": "@ + "keep-alive"@ + "\r\n"@ =~= "connection: keep-alive\r\n"@);
    reveal_strlit("Close");
    reveal_strlit("connection: Close\r\n");
    assert("connection"@ + ": "@ + "Close"@ + "\r\n"@ =~= "connection: Close\r\n"@);
    reveal_strlit("access-control-allow-origin");
    reveal_strlit("*");
    reveal_strlit("access-control-allow-origin: *\r\n");
    assert("access-control-allow-origin"@ + ": "@ + "*"@ + "\r\n"@
        =~= "access-control-allow-origin: *\r\n"@);
    reveal_strlit("allow");
    reveal_strlit("PUT, SOURCE");
    reveal_strlit("allow: PUT, SOURCE\r\n");
    assert("allow"@ + ": "@ + "PUT, SOURCE"@ + "\r\n"@ =~= "allow: PUT, SOURCE\r\n"@);
    reveal_strlit("content-type");
    reveal_strlit("content-type: ");
    assert("content-type"@ + ": "@ =~= "content-type: "@);
    reveal_strlit("application/json");
    reveal_strlit("content-type: application/json\r\n");
    assert("content-type"@ + ": "@ + "application/json"@ + "\r\n"@
        =~= "content-type: application/json\r\n"@);
}

proof fn lemma_status_lines()
    ensures
        "HTTP/1.1 "@ + crate::response::three_digits(200) + " "@ + "OK"@ + "\r\n"@
            == "HTTP/1.1 200 OK\r\n"@,
        "HTTP/1.1 "@ + crate::response::three_digits(100) + " "@ + "Continue"@ + "\r\n"@
            == "HTTP/1.1 100 Continue\r\n"@,
        "HTTP/1.1 "@ + crate::response::three_digits(404) + " "@ + "Not Found"@ + "\r\n"@
            == "HTTP/1.1 404 Not Found\r\n"@,
        "HTTP/1.1 "@ + crate::response::three_digits(403) + " "@ + "Mountpoint in use"@ + "\r\n"@
            == "HTTP/1.1 403 Mountpoint in use\r\n"@,
        "HTTP/1.1 "@ + crate::response::three_digits(403) + " "@ + "Content-Type must be "@
            == "HTTP/1.1 403 Content-Type must be "@,
{
    reveal_strlit("HTTP/1.1 ");
    reveal_strlit(" ");
    reveal_strlit("\r\n");
    reveal_strlit("OK");
    reveal_strlit("HTTP/1.1 200 OK\r\n");
    assert("HTTP/1.1 "@ + crate::response::three_digits(200) + " "@ + "OK"@ + "\r\n"@
        =~= "HTTP/1.1 200 OK\r\n"@);
    reveal_strlit("Continue");
    reveal_strlit("HTTP/1.1 100 Continue\r\n");
    assert("HTTP/1.1 "@ + crate::response::three_digits(100) + " "@ + "Continue"@ + "\r\n"@
        =~= "HTTP/1.1 100 Continue\r\n"@);
    reveal_strlit("Not Found");
    reveal_strlit("HTTP/1.1 404 Not Found\r\n");
    assert("HTTP/1.1 "@ + crate::response::three_digits(404) + " "@ + "Not Found"@ + "\r\n"@
        =~= "HTTP/1.1 404 Not Found\r\n"@);
    reveal_strlit("Mountpoint in use");
    reveal_strlit("HTTP/1.1 403 Mountpoint in use\r\n");
    assert("HTTP/1.1 "@ + crate::response::three_digits(403) + " "@ + "Mountpoint in use"@
        + "\r\n"@ =~= "HTTP/1.1 403 Mountpoint in use\r\n"@);
    reveal_strlit("Content-Type must be ");
    reveal_strlit("HTTP/1.1 403 Content-Type must be ");
    assert("HTTP/1.1 "@ + crate::response::three_digits(403) + " "@ + "Content-Type must be "@
        =~= "HTTP/1.1 403 Content-Type must be "@);
}

proof fn lemma_more_text(lines: Seq<(Seq<char>, Seq<char>)>, name: Seq<char>, value: Seq<char>)
    ensures
        lines_text(lines.push((name, value))) == lines_text(lines) + (name + ": "@ + value
            + "\r\n"@),
        encoded(lines.push((name, value))) == encoded(lines).push(
            crate::handler::line(name, value),
        ),
{
    let more = lines.push((name, value));
    assert(more.drop_last() =~= lines);
    assert(encoded(more) =~= encoded(lines).push(crate::handler::line(name, value)));
}

/// The first lines of an answer.
spec fn first() -> Seq<(Seq<char>, Seq<char>)> {
    seq![
        ("server"@, crate::response::SERVER@),
        ("accept-encoding"@, "identity"@),
        ("connection"@, "keep-alive"@),
    ]
}

spec fn plain() -> Seq<(Seq<char>, Seq<char>)> {
    first().push(("access-control-allow-origin"@, "*"@))
}

spec fn closing() -> Seq<(Seq<char>, Seq<char>)> {
    first().push(("connection"@, "Close"@)).push(("access-control-allow-origin"@, "*"@))
}

proof fn lemma_common_texts()
    ensures
        lines_text(plain()) == first_text() + "access-control-allow-origin: *\r\n"@,
        encoded(plain()) == crate::handler::plain_lines(),
        lines_text(closing()) == first_text() + "connection: Close\r\n"@
            + "access-control-allow-origin: *\r\n"@,
        encoded(closing()) == crate::handler::closing_lines(),
{
    lemma_line_texts();
    let none = Seq::<(Seq<char>, Seq<char>)>::empty();
    let one = none.push(("server"@, crate::response::SERVER@));
    let two = one.push(("accept-encoding"@, "identity"@));
    lemma_more_text(none, "server"@, crate::response::SERVER@);
    lemma_more_text(one, "accept-encoding"@, "identity"@);
    lemma_more_text(two, "connection"@, "keep-alive"@);
    assert(first() =~= two.push(("connection"@, "keep-alive"@)));
    assert(lines_text(first()) =~= first_text());
    lemma_more_text(first(), "access-control-allow-origin"@, "*"@);
    lemma_more_text(first(), "connection"@, "Close"@);
    lemma_more_text(
        first().push(("connection"@, "Close"@)),
        "access-control-allow-origin"@,
        "*"@,
    );
    assert(lines_text(closing()) =~= first_text() + "connection: Close\r\n"@
        + "access-control-allow-origin: *\r\n"@);
    assert(encoded(plain()) =~= crate::handler::plain_lines());
    assert(encoded(closing()) =~= crate::handler::closing_lines());
}

/// The text of the answer to a listener.
proof fn lemma_listener_answer(content_type: Seq<char>)
    ensures
        crate::handler::listener_answer(content_type) == vstd::utf8::encode_utf8(
            "HTTP/1.1 200 OK\r\n"@ + first_text() + "access-control-allow-origin: *\r\n"@
                + "content-type: "@ + content_type + "\r\n\r\n"@,
        ),
{
    lemma_line_texts();
    lemma_line_end();
    lemma_status_lines();
    lemma_common_texts();
    let lines = plain().push(("content-type"@, content_type));
    lemma_more_text(plain(), "content-type"@, content_type);
    assert(encoded(lines) =~= crate::handler::plain_lines() + seq![
        crate::handler::line("content-type"@, content_type),
    ]);
    lemma_head(200, "OK"@, lines);
    assert("HTTP/1.1 "@ + crate::response::three_digits(200) + " "@ + "OK"@ + "\r\n"@
        + lines_text(lines) + "\r\n"@ =~= "HTTP/1.1 200 OK\r\n"@ + first_text()
        + "access-control-allow-origin: *\r\n"@ + "content-type: "@ + content_type
        + "\r\n\r\n"@);
}

/// The text of the answer to a source, behind its status line.
pub open spec fn source_text() -> Seq<char> {
    first_text() + "connection: Close\r\n"@ + "access-control-allow-origin: *\r\n"@
        + "allow: PUT, SOURCE\r\n"@ + "\r\n"@
}

/// The text of the answer to a source.
pub(crate) proof fn lemma_source_answer(content_type: Seq<char>)
    ensures
        crate::handler::source_answer(200, "OK"@) == vstd::utf8::encode_utf8(
            "HTTP/1.1 200 OK\r\n"@ + source_text(),
        ),
        crate::handler::source_answer(100, "Continue"@) == vstd::utf8::encode_utf8(
            "HTTP/1.1 100 Continue\r\n"@ + source_text(),
        ),
        crate::handler::source_answer(403, "Content-Type must be "@ + content_type)
            == vstd::utf8::encode_utf8(
            "HTTP/1.1 403 Content-Type must be "@ + content_type + "\r\n"@ + source_text(),
        ),
{
    lemma_line_texts();
    lemma_status_lines();
    lemma_common_texts();
    let lines = closing().push(("allow"@, "PUT, SOURCE"@));
    lemma_more_text(closing(), "allow"@, "PUT, SOURCE"@);
    assert(encoded(lines) =~= crate::handler::closing_lines() + seq![
        crate::handler::line("allow"@, "PUT, SOURCE"@),
    ]);
    assert(lines_text(lines) + "\r\n"@ =~= source_text());
    lemma_head(200, "OK"@, lines);
    assert("HTTP/1.1 "@ + crate::response::three_digits(200) + " "@ + "OK"@ + "\r\n"@
        + lines_text(lines) + "\r\n"@ =~= "HTTP/1.1 200 OK\r\n"@ + source_text());
    lemma_head(100, "Continue"@, lines);
    assert("HTTP/1.1 "@ + crate::response::three_digits(100) + " "@ + "Continue"@ + "\r\n"@
        + lines_text(lines) + "\r\n"@ =~= "HTTP/1.1 100 Continue\r\n"@ + source_text());
    let reason = "Content-Type must be "@ + content_type;
    lemma_head(403, reason, lines);
    assert("HTTP/1.1 "@ + crate::response::three_digits(403) + " "@ + reason
        =~= "HTTP/1.1 403 Content-Type must be "@ + content_type);
    assert("HTTP/1.1 "@ + crate::response::three_digits(403) + " "@ + reason + "\r\n"@
        + lines_text(lines) + "\r\n"@ =~= "HTTP/1.1 403 Content-Type must be "@ + content_type
        + "\r\n"@ + source_text());
}

/// The text of the other answers.
pub(crate) proof fn lemma_other_answers()
    ensures
        crate::handler::occupied_answer() == vstd::utf8::encode_utf8(
            "HTTP/1.1 403 Mountpoint in use\r\n"@ + first_text()
                + "access-control-allow-origin: *\r\n"@ + "\r\n"@,
        ),
        crate::handler::update_answer() == vstd::utf8::encode_utf8(
            "HTTP/1.1 200 OK\r\n"@ + first_text() + "access-control-allow-origin: *\r\n"@
                + "\r\n"@,
        ),
        crate::handler::unknown_answer() == vstd::utf8::encode_utf8(
            "HTTP/1.1 404 Not Found\r\n"@ + first_text() + "connection: Close\r\n"@
                + "access-control-allow-origin: *\r\n"@ + "\r\n"@,
        ),
        crate::handler::metadata_answer() == vstd::utf8::encode_utf8(
            "HTTP/1.1 200 OK\r\n"@ + first_text() + "connection: Close\r\n"@
                + "access-control-allow-origin: *\r\n"@ + "content-type: application/json\r\n"@
                + "\r\n"@,
        ),
{
    lemma_line_texts();
    lemma_status_lines();
    lemma_common_texts();
    lemma_head(403, "Mountpoint in use"@, plain());
    assert("HTTP/1.1 "@ + crate::response::three_digits(403) + " "@ + "Mountpoint in use"@
        + "\r\n"@ + lines_text(plain()) + "\r\n"@ =~= "HTTP/1.1 403 Mountpoint in use\r\n"@
        + first_text() + "access-control-allow-origin: *\r\n"@ + "\r\n"@);
    lemma_head(200, "OK"@, plain());
    assert("HTTP/1.1 "@ + crate::response::three_digits(200) + " "@ + "OK"@ + "\r\n"@
        + lines_text(plain()) + "\r\n"@ =~= "HTTP/1.1 200 OK\r\n"@ + first_text()
        + "access-control-allow-origin: *\r\n"@ + "\r\n"@);
    lemma_head(404, "Not Found"@, closing());
    assert("HTTP/1.1 "@ + crate::response::three_digits(404) + " "@ + "Not Found"@ + "\r\n"@
        + lines_text(closing()) + "\r\n"@ =~= "HTTP/1.1 404 Not Found\r\n"@ + first_text()
        + "connection: Close\r\n"@ + "access-control-allow-origin: *\r\n"@ + "\r\n"@);
    let lines = closing().push(("content-type"@, "application/json"@));
    lemma_more_text(closing(), "content-type"@, "application/json"@);
    assert(encoded(lines) =~= crate::handler::closing_lines() + seq![
        crate::handler::line("content-type"@, "application/json"@),
    ]);
    lemma_head(200, "OK"@, lines);
    assert("HTTP/1.1 "@ + crate::response::three_digits(200) + " "@ + "OK"@ + "\r\n"@
        + lines_text(lines) + "\r\n"@ =~= "HTTP/1.1 200 OK\r\n"@ + first_text()
        + "connection: Close\r\n"@ + "access-control-allow-origin: *\r\n"@
        + "content-type: application/json\r\n"@ + "\r\n"@);
}

/// The path of the listeners is one of the two that there are, and none of the
/// other paths.
pub(crate) proof fn lemma_paths_differ()
    ensures
        "/listen.mp3"@ != "/stream"@,
        "/listen.mp3"@ != "/metadata"@,
        "/listen.mp3"@ != "/admin/metadata"@,
        "/listen.ogg"@ != "/stream"@,
        "/listen.ogg"@ != "/metadata"@,
        "/listen.ogg"@ != "/admin/metadata"@,
        "/stream"@ != "/metadata"@,
        "/stream"@ != "/admin/metadata"@,
        "/metadata"@ != "/admin/metadata"@,
{
    reveal_strlit("/listen.mp3");
    reveal_strlit("/listen.ogg");
    reveal_strlit("/stream");
    reveal_strlit("/metadata");
    reveal_strlit("/admin/metadata");
    assert("/listen.mp3"@.len() == 11 && "/listen.ogg"@.len() == 11);
    assert("/stream"@.len() == 7 && "/metadata"@.len() == 9 && "/admin/metadata"@.len() == 15);
}

/// A request for the path of the listeners is answered with success and the media
/// type of the stream, all of it, whatever else it says; the stream stays as it is.
pub proof fn law_listener_is_told_the_media_type(req: RequestView, stream: StreamView)
    requires
        req.uri.path == stream.listen_uri,
    ensures
        crate::handler::routed(req, stream) == (
            SessionView::Greeting,
            ActionView::Write(
                vstd::utf8::encode_utf8(
                    "HTTP/1.1 200 OK\r\n"@ + first_text() + "access-control-allow-origin: *\r\n"@
                        + "content-type: "@ + stream.content_type.source + "\r\n\r\n"@,
                ),
            ),
            stream,
        ),
{
    lemma_listener_answer(stream.content_type.source);
}

/// Streams of different media types answer their listeners differently.
pub proof fn law_media_types_are_told_apart(
    req: RequestView,
    stream: StreamView,
    other_req: RequestView,
    other: StreamView,
)
    requires
        req.uri.path == stream.listen_uri,
        other_req.uri.path == other.listen_uri,
        stream.content_type.source != other.content_type.source,
    ensures
        crate::handler::routed(req, stream).1 != crate::handler::routed(other_req, other).1,
{
    let start = "HTTP/1.1 200 OK\r\n"@ + first_text() + "access-control-allow-origin: *\r\n"@
        + "content-type: "@;
    let end = "\r\n\r\n"@;
    let one = start + stream.content_type.source + end;
    let two = start + other.content_type.source + end;
    law_listener_is_told_the_media_type(req, stream);
    law_listener_is_told_the_media_type(other_req, other);
    vstd::utf8::encode_utf8_decode_utf8(one);
    vstd::utf8::encode_utf8_decode_utf8(two);
    if one == two {
        let n = start.len() as int;
        assert(one.subrange(n, one.len() - end.len()) =~= stream.content_type.source);
        assert(two.subrange(n, two.len() - end.len()) =~= other.content_type.source);
    }
}

/// While a source holds the stream another one is told that it is in use, whatever
/// it says of itself; its connection ends with that error and the stream stays as
/// it is.
pub proof fn law_occupied_stream(req: RequestView, stream: StreamView)
    requires
        stream.listen_uri == "/listen.mp3"@ || stream.listen_uri == "/listen.ogg"@,
        stream.broadcasting,
        req.uri.path == "/stream"@,
    ensures
        crate::handler::routed(req, stream) == (
            SessionView::Replying(Err(crate::error::HandlerErrorView::StreamAlreadyConnected)),
            ActionView::Write(
                vstd::utf8::encode_utf8(
                    "HTTP/1.1 403 Mountpoint in use\r\n"@ + first_text()
                        + "access-control-allow-origin: *\r\n"@ + "\r\n"@,
                ),
            ),
            stream,
        ),
{
    lemma_paths_differ();
    lemma_other_answers();
}

/// A request for the metadata is answered with a head that announces JSON, and the
/// stream stays as it is.
pub proof fn law_metadata_are_announced(req: RequestView, stream: StreamView)
    requires
        stream.listen_uri == "/listen.mp3"@ || stream.listen_uri == "/listen.ogg"@,
        req.uri.path == "/metadata"@,
    ensures
        crate::handler::routed(req, stream) == (
            SessionView::Reporting,
            ActionView::Write(
                vstd::utf8::encode_utf8(
                    "HTTP/1.1 200 OK\r\n"@ + first_text() + "connection: Close\r\n"@
                        + "access-control-allow-origin: *\r\n"@
                        + "content-type: application/json\r\n"@ + "\r\n"@,
                ),
            ),
            stream,
        ),
{
    lemma_paths_differ();
    lemma_other_answers();
}

/// A request for any other path is answered with the status for that; its
/// connection ends with an error that names the request, and the stream stays as
/// it is.
pub proof fn law_other_paths_are_not_found(req: RequestView, stream: StreamView)
    requires
        req.uri.path != stream.listen_uri,
        req.uri.path != "/stream"@,
        req.uri.path != "/metadata"@,
        req.uri.path != "/admin/metadata"@,
    ensures
        crate::handler::routed(req, stream) == (
            SessionView::Replying(Err(crate::error::HandlerErrorView::EndpointNotFound(req))),
            ActionView::Write(
                vstd::utf8::encode_utf8(
                    "HTTP/1.1 404 Not Found\r\n"@ + first_text() + "connection: Close\r\n"@
                        + "access-control-allow-origin: *\r\n"@ + "\r\n"@,
                ),
            ),
            stream,
        ),
{
    lemma_other_answers();
}

} // verus!
