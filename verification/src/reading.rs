//! What is read: of the head of a request, and of a query.

use crate::error::{HandlerError, HandlerErrorView, ParseError};
use crate::handler::{ActionView, EventView, SessionView};
use crate::media::Mime;
use crate::metadata::{StreamMetadataView, TrackMetadataView};
use crate::request::{ParsedRequest, ParsedView, Request, RequestView, Uri, UriView};
use crate::stream::StreamView;
use vstd::prelude::*;

verus! {

/// Names and values may hold what HTTP allows, and be of any length up to the
/// longest name that there is.
pub proof fn law_valid_fields(name: Seq<char>, value: Seq<u8>, text: Seq<char>)
    ensures
        crate::headers::valid_name(name) <==> 1 <= name.len() <= 65535 && (forall|i: int|
            0 <= i < name.len() ==> {
                let c = #[trigger] name[i];
                ||| '0' <= c <= '9'
                ||| 'a' <= c <= 'z'
                ||| 'A' <= c <= 'Z'
                ||| '!' <= c <= '\''
                ||| c == '*' || c == '+' || c == '-' || c == '.' || c == '^' || c == '_'
                ||| c == '`' || c == '|' || c == '~'
            }),
        crate::headers::valid_value(value) <==> (forall|i: int|
            0 <= i < value.len() ==> (#[trigger] value[i]) == 9 || 32 <= value[i] <= 126
                || 128 <= value[i]),
        crate::headers::valid_text(text) <==> (forall|i: int|
            0 <= i < text.len() ==> (#[trigger] text[i]) == '\t' || ' ' <= text[i] <= '~'
                || '\u{80}' <= text[i]),
        crate::request::valid_method(text) <==> text.len() > 0 && (forall|i: int|
            0 <= i < text.len() ==> {
                let c = #[trigger] text[i];
                ||| '0' <= c <= '9'
                ||| 'a' <= c <= 'z'
                ||| 'A' <= c <= 'Z'
                ||| c == '!' || c == '*' || c == '+' || c == '-' || c == '.' || c == '^'
                ||| c == '_' || c == '`' || c == '|' || c == '~'
            }),
{
    if forall|i: int|
        0 <= i < value.len() ==> (#[trigger] value[i]) == 9 || 32 <= value[i] <= 126 || 128
            <= value[i] {
        assert(crate::headers::valid_value(value));
    }
    if crate::headers::valid_value(value) {
        assert forall|i: int| 0 <= i < value.len() implies (#[trigger] value[i]) == 9 || 32
            <= value[i] <= 126 || 128 <= value[i] by {
            assert(crate::headers::value_byte(value[i]));
        }
    }
    if crate::headers::valid_text(text) {
        assert forall|i: int| 0 <= i < text.len() implies (#[trigger] text[i]) == '\t' || ' '
            <= text[i] <= '~' || '\u{80}' <= text[i] by {
            assert(crate::headers::text_char(text[i]));
        }
    }
    if crate::headers::valid_name(name) {
        assert(forall|i: int| 0 <= i < name.len() ==> crate::headers::name_char(#[trigger] name[i]));
    }
    if crate::request::valid_method(text) {
        assert(forall|i: int|
            0 <= i < text.len() ==> crate::request::method_char(#[trigger] text[i]));
    }
}

/// A text in lower case differs from the text in its upper case letters alone.
pub proof fn law_lower_case(text: Seq<char>, i: int)
    requires
        0 <= i < text.len(),
    ensures
        crate::headers::lower(text).len() == text.len(),
        'A' <= text[i] <= 'Z' ==> crate::headers::lower(text)[i] as int == text[i] as int + 32,
        !('A' <= text[i] <= 'Z') ==> crate::headers::lower(text)[i] == text[i],
{
}

/// The first value of a name is that of the first entry with this name.
pub proof fn law_first_value(
    entries: Seq<(Seq<char>, Seq<Seq<u8>>)>,
    name: Seq<char>,
    at: int,
)
    requires
        0 <= at <= entries.len(),
        forall|i: int| 0 <= i < at ==> (#[trigger] entries[i]).0 != name,
        at < entries.len() ==> entries[at].0 == name,
    ensures
        crate::headers::first_value(entries, name) == if at < entries.len() {
            Some(entries[at].1[0])
        } else {
            None
        },
{
    crate::headers::lemma_found(entries, name, at);
}

/// The last field of a name is the one behind which there is no other of this name.
pub proof fn law_last_field(fields: Seq<(Seq<char>, Seq<u8>)>, name: Seq<char>, at: int)
    requires
        -1 <= at < fields.len(),
        at >= 0 ==> crate::headers::lower(fields[at].0) == name,
        forall|i: int|
            at < i < fields.len() ==> crate::headers::lower((#[trigger] fields[i]).0) != name,
    ensures
        crate::laws::last_field(fields, name) == if at >= 0 {
            Some(fields[at].1)
        } else {
            None
        },
    decreases fields.len(),
{
    if fields.len() > 0 && at < fields.len() - 1 {
        let fewer = fields.drop_last();
        assert(fields.last() == fields[fields.len() - 1]);
        assert forall|i: int| at < i < fewer.len() implies crate::headers::lower(
            (#[trigger] fewer[i]).0,
        ) != name by {
            assert(fewer[i] == fields[i]);
        }
        law_last_field(fewer, name, at);
    }
}

/// Fields with valid names and valid values are kept, however many there are and
/// however long they are; and only such fields.
pub proof fn law_valid_headers_are_kept(fields: Seq<(Seq<char>, Seq<u8>)>)
    ensures
        crate::request::collected(fields) is Ok <==> (forall|i: int|
            0 <= i < fields.len() ==> crate::headers::valid_name((#[trigger] fields[i]).0)
                && crate::headers::valid_value(fields[i].1)),
    decreases fields.len(),
{
    if fields.len() > 0 {
        let fewer = fields.drop_last();
        law_valid_headers_are_kept(fewer);
        assert(fields.last() == fields[fields.len() - 1]);
        assert(forall|i: int| 0 <= i < fewer.len() ==> #[trigger] fewer[i] == fields[i]);
        if forall|i: int|
            0 <= i < fewer.len() ==> crate::headers::valid_name((#[trigger] fewer[i]).0)
                && crate::headers::valid_value(fewer[i].1) {
            assert forall|i: int| 0 <= i < fields.len() - 1 implies crate::headers::valid_name(
                (#[trigger] fields[i]).0,
            ) && crate::headers::valid_value(fields[i].1) by {
                assert(fewer[i] == fields[i]);
            }
        } else {
            let i = choose|i: int|
                0 <= i < fewer.len() && !(crate::headers::valid_name((#[trigger] fewer[i]).0)
                    && crate::headers::valid_value(fewer[i].1));
            assert(fewer[i] == fields[i]);
        }
    }
}

/// The first field with an invalid name or value is the one that is reported, its
/// name before its value.
pub proof fn law_first_invalid_header(fields: Seq<(Seq<char>, Seq<u8>)>, at: int)
    requires
        0 <= at < fields.len(),
        forall|i: int|
            0 <= i < at ==> crate::headers::valid_name((#[trigger] fields[i]).0)
                && crate::headers::valid_value(fields[i].1),
        !(crate::headers::valid_name(fields[at].0) && crate::headers::valid_value(fields[at].1)),
    ensures
        crate::request::collected(fields) == Err::<Seq<(Seq<char>, Seq<Seq<u8>>)>, ParseError>(
            if crate::headers::valid_name(fields[at].0) {
                ParseError::HeaderValue
            } else {
                ParseError::HeaderName
            },
        ),
    decreases fields.len(),
{
    let fewer = fields.drop_last();
    assert(fields.last() == fields[fields.len() - 1]);
    if at < fewer.len() {
        assert(fewer[at] == fields[at]);
        assert forall|i: int| 0 <= i < at implies crate::headers::valid_name(
            (#[trigger] fewer[i]).0,
        ) && crate::headers::valid_value(fewer[i].1) by {
            assert(fewer[i] == fields[i]);
        }
        law_first_invalid_header(fewer, at);
    } else {
        assert forall|i: int| 0 <= i < fewer.len() implies crate::headers::valid_name(
            (#[trigger] fewer[i]).0,
        ) && crate::headers::valid_value(fewer[i].1) by {
            assert(fewer[i] == fields[i]);
        }
        law_valid_headers_are_kept(fewer);
    }
}

/// What is looked up in a request is the value of the last field of that name, all
/// of its bytes, or nothing where there is no such field.
pub proof fn law_header_is_the_last_field(fields: Seq<(Seq<char>, Seq<u8>)>, header: Seq<char>)
    requires
        crate::request::collected(fields) is Ok,
        crate::headers::valid_name(header),
    ensures
        crate::request::header_or_empty(crate::request::collected(fields)->Ok_0, header)
            == match crate::laws::last_field(fields, crate::headers::lower(header)) {
            Some(value) => value,
            None => seq![],
        },
{
    crate::laws::law_last_header_counts(fields, crate::headers::lower(header));
}

/// What comes of a head: each error where its cause is there and none before it, and
/// a request where there is no cause, with what the head says.
pub proof fn law_outcome_of_a_head(parsed: ParsedView)
    ensures
        ({
            let r = crate::request::converted(parsed);
            match (parsed.method, parsed.path) {
                (Some(method), Some(path)) => if !crate::request::valid_method(method) {
                    r == Err::<RequestView, HandlerErrorView>(
                        HandlerErrorView::ResponseError("invalid HTTP method"@),
                    )
                } else if crate::request::http_uri(path) is Err {
                    r == Err::<RequestView, HandlerErrorView>(
                        HandlerErrorView::ResponseError(crate::request::http_uri(path)->Err_0),
                    )
                } else if crate::request::collected(parsed.headers) is Err {
                    r == Err::<RequestView, HandlerErrorView>(
                        HandlerErrorView::RequestError(
                            crate::request::collected(parsed.headers)->Err_0,
                        ),
                    )
                } else {
                    r == Ok::<RequestView, HandlerErrorView>(
                        RequestView {
                            version: "HTTP/1.1"@,
                            method: method,
                            uri: crate::request::http_uri(path)->Ok_0,
                            headers: crate::request::collected(parsed.headers)->Ok_0,
                        },
                    )
                },
                _ => r == Err::<RequestView, HandlerErrorView>(HandlerErrorView::InvalidHttp),
            }
        }),
{
}

/// What comes of the first bytes of a connection: nothing came, or a head with room
/// for sixteen headers was read. Only a head with headers behind a method or a
/// target that no request can have is not answered.
pub proof fn law_first_bytes(bytes: Seq<u8>)
    ensures
        crate::handler::opening_event(bytes) == if bytes.len() == 0 {
            Some(EventView::Received(seq![]))
        } else {
            match crate::request::httparse_request(bytes, 16) {
                Err(e) => Some(EventView::Requested(Err(HandlerErrorView::RequestError(e)))),
                Ok(parsed) => if parsed.headers.len() > 0 && parsed.method is Some
                    && parsed.path is Some && !(crate::request::valid_method(parsed.method->0)
                    && crate::request::http_uri(parsed.path->0) is Ok) {
                    None
                } else {
                    Some(EventView::Requested(crate::request::converted(parsed)))
                },
            }
        },
        bytes.len() > 0 ==> crate::handler::opening_event(bytes) == match crate::request::request_read(
            bytes,
        ) {
            Some(r) => Some(EventView::Requested(r)),
            None => None,
        },
{
    assert(bytes.len() == 0 ==> bytes =~= seq![]);
}

/// What stands before the first `c` holds no `c`, and ends where the text ends or a
/// `c` follows.
proof fn lemma_before(text: Seq<char>, c: char)
    ensures
        ({
            let part = crate::request::before(text, c);
            &&& part.len() <= text.len()
            &&& part == text.take(part.len() as int)
            &&& !part.contains(c)
            &&& part.len() < text.len() ==> text[part.len() as int] == c
        }),
    decreases text.len(),
{
    let part = crate::request::before(text, c);
    if text.len() == 0 || text[0] == c {
        assert(part =~= text.take(0));
    } else {
        let rest = text.drop_first();
        lemma_before(rest, c);
        let inner = crate::request::before(rest, c);
        assert(part =~= text.take(part.len() as int));
        assert forall|i: int| 0 <= i < part.len() implies part[i] != c by {
            if i > 0 {
                assert(part[i] == inner[i - 1]);
                assert(inner.contains(inner[i - 1]));
            }
        }
    }
}

/// A target that starts with a slash is its path, and its query behind a question
/// mark where there is one; a number sign and what follows it do not count.
pub proof fn law_target_parts(text: Seq<char>)
    ensures
        ({
            let uri = crate::request::slash_target(text);
            &&& uri.text == text || (exists|rest: Seq<char>| text == uri.text + seq!['#'] + rest)
            &&& !uri.text.contains('#')
            &&& !uri.path.contains('?')
            &&& match uri.query {
                Some(query) => uri.text == uri.path + seq!['?'] + query,
                None => uri.text == uri.path,
            }
        }),
{
    let uri = crate::request::slash_target(text);
    let whole = uri.text;
    lemma_before(text, '#');
    lemma_before(whole, '?');
    if whole.len() < text.len() {
        let rest = text.skip(whole.len() as int + 1);
        assert(text =~= whole + seq!['#'] + rest);
    } else {
        assert(whole =~= text);
    }
    if uri.path.len() < whole.len() {
        assert(whole =~= uri.path + seq!['?'] + whole.skip(uri.path.len() as int + 1));
    } else {
        assert(whole =~= uri.path);
    }
}

/// The names of the headers that count are names in lower case.
proof fn lemma_header_names()
    ensures
        crate::headers::valid_name("content-type"@),
        crate::headers::lower("content-type"@) == "content-type"@,
        crate::headers::valid_name("expect"@),
        crate::headers::lower("expect"@) == "expect"@,
{
    reveal_strlit("content-type");
    reveal_strlit("expect");
    assert(crate::headers::lower("content-type"@) =~= "content-type"@);
    assert(crate::headers::lower("expect"@) =~= "expect"@);
}

/// The text of the last field of a name, or no text where there is no such field.
pub open spec fn told(fields: Seq<(Seq<char>, Seq<u8>)>, name: Seq<char>) -> Seq<char> {
    match crate::laws::last_field(fields, name) {
        Some(value) => crate::metadata::utf8_lossy(value),
        None => seq![],
    }
}

/// What a source says of itself: by the last field of each of the three names.
pub proof fn law_source_describes_itself(fields: Seq<(Seq<char>, Seq<u8>)>)
    requires
        crate::request::collected(fields) is Ok,
    ensures
        crate::metadata::described(crate::request::collected(fields)->Ok_0)
            == (StreamMetadataView {
            user_agent: told(fields, "user-agent"@),
            content_type: told(fields, "content-type"@),
            name: told(fields, "ice-name"@),
        }),
{
    crate::laws::law_last_header_counts(fields, "user-agent"@);
    crate::laws::law_last_header_counts(fields, "content-type"@);
    crate::laws::law_last_header_counts(fields, "ice-name"@);
}

/// Whether a source may send: exactly where the value of the last content type field
/// of its head is the media type of the stream, all of its bytes. It is told to go
/// on, with the status that it waits for if it says that it waits. Else it is told
/// the media type of the stream, and its connection ends with an error that names
/// both.
pub proof fn law_admission(parsed: ParsedView, stream: StreamView)
    requires
        crate::request::converted(parsed) is Ok,
        crate::request::converted(parsed)->Ok_0.uri.path == "/stream"@,
        stream.listen_uri == "/listen.mp3"@ || stream.listen_uri == "/listen.ogg"@,
        !stream.broadcasting,
    ensures
        ({
            let req = crate::request::converted(parsed)->Ok_0;
            let actual = match crate::laws::last_field(parsed.headers, "content-type"@) {
                Some(value) => value,
                None => seq![],
            };
            let waits = crate::laws::last_field(parsed.headers, "expect"@) == Some(
                vstd::utf8::encode_utf8("100-continue"@),
            );
            let wanted = stream.content_type.source;
            let taken = StreamView { broadcasting: true, ..stream };
            crate::handler::routed(req, stream) == if actual == vstd::utf8::encode_utf8(wanted) {
                (
                    SessionView::Accepting(
                        StreamMetadataView {
                            user_agent: told(parsed.headers, "user-agent"@),
                            content_type: told(parsed.headers, "content-type"@),
                            name: told(parsed.headers, "ice-name"@),
                        },
                    ),
                    ActionView::Write(
                        vstd::utf8::encode_utf8(
                            if waits {
                                "HTTP/1.1 100 Continue\r\n"@
                            } else {
                                "HTTP/1.1 200 OK\r\n"@
                            } + crate::heads::source_text(),
                        ),
                    ),
                    taken,
                )
            } else {
                (
                    SessionView::Refusing(
                        HandlerErrorView::UnsupportedContentType {
                            actual: crate::metadata::utf8_lossy(actual),
                            expected: wanted,
                        },
                    ),
                    ActionView::Write(
                        vstd::utf8::encode_utf8(
                            "HTTP/1.1 403 Content-Type must be "@ + wanted + "\r\n"@
                                + crate::heads::source_text(),
                        ),
                    ),
                    taken,
                )
            }
        }),
{
    let fields = parsed.headers;
    law_outcome_of_a_head(parsed);
    crate::heads::lemma_paths_differ();
    crate::heads::lemma_source_answer(stream.content_type.source);
    lemma_header_names();
    law_header_is_the_last_field(fields, "content-type"@);
    law_header_is_the_last_field(fields, "expect"@);
    law_source_describes_itself(fields);
    reveal_strlit("100-continue");
    let waiting = vstd::utf8::encode_utf8("100-continue"@);
    assert(waiting.len() > 0) by {
        vstd::utf8::encode_utf8_decode_utf8("100-continue"@);
        assert("100-continue"@.len() == 12);
    }
}

/// The last value of a key is the one behind which there is no other of this key.
pub proof fn law_last_value(pairs: Seq<(Seq<char>, Seq<char>)>, key: Seq<char>, at: int)
    requires
        -1 <= at < pairs.len(),
        at >= 0 ==> pairs[at].0 == key,
        forall|i: int| at < i < pairs.len() ==> (#[trigger] pairs[i]).0 != key,
    ensures
        crate::metadata::last_value(pairs, key) == if at >= 0 {
            Some(pairs[at].1)
        } else {
            None
        },
    decreases pairs.len(),
{
    if pairs.len() > 0 && at < pairs.len() - 1 {
        let fewer = pairs.drop_last();
        assert(pairs.last() == pairs[pairs.len() - 1]);
        assert forall|i: int| at < i < fewer.len() implies (#[trigger] fewer[i]).0 != key by {
            assert(fewer[i] == pairs[i]);
        }
        law_last_value(fewer, key, at);
    }
}

/// An update replaces the track as a whole, whatever was known before: artist, title
/// and album are each the last value of that name in the query, or none where the
/// query does not hold it. It is answered with success, and all else that the stream
/// holds stays.
pub proof fn law_update_replaces_the_track(
    req: RequestView,
    stream: StreamView,
    query: Seq<char>,
)
    requires
        stream.listen_uri == "/listen.mp3"@ || stream.listen_uri == "/listen.ogg"@,
        req.uri.path == "/admin/metadata"@,
        req.uri.query == Some(query),
    ensures
        ({
            let pairs = crate::metadata::form_pairs(vstd::utf8::encode_utf8(query));
            let track = TrackMetadataView {
                artist: crate::metadata::last_value(pairs, "artist"@),
                title: crate::metadata::last_value(pairs, "title"@),
                album: crate::metadata::last_value(pairs, "album"@),
            };
            let (session, action, after) = crate::handler::routed(req, stream);
            &&& session == SessionView::Replying(Ok(()))
            &&& action == ActionView::Write(
                vstd::utf8::encode_utf8(
                    "HTTP/1.1 200 OK\r\n"@ + crate::heads::first_text()
                        + "access-control-allow-origin: *\r\n"@ + "\r\n"@,
                ),
            )
            &&& after.metadata.track == Some(track)
            &&& after == StreamView {
                metadata: crate::metadata::MetadataContainerView {
                    track: Some(track),
                    ..stream.metadata
                },
                ..stream
            }
        }),
{
    crate::heads::lemma_paths_differ();
    crate::heads::lemma_other_answers();
}

/// What an update makes of the track does not depend on the track before.
pub proof fn law_updates_do_not_mix(req: RequestView, stream: StreamView, other: StreamView)
    requires
        stream.listen_uri == "/listen.mp3"@ || stream.listen_uri == "/listen.ogg"@,
        other.listen_uri == "/listen.mp3"@ || other.listen_uri == "/listen.ogg"@,
        req.uri.path == "/admin/metadata"@,
        req.uri.query is Some,
    ensures
        crate::handler::routed(req, stream).2.metadata.track == crate::handler::routed(
            req,
            other,
        ).2.metadata.track,
{
    crate::heads::lemma_paths_differ();
}

/// An update without a query is not answered and changes nothing.
pub proof fn law_update_without_a_query(req: RequestView, stream: StreamView)
    requires
        stream.listen_uri == "/listen.mp3"@ || stream.listen_uri == "/listen.ogg"@,
        req.uri.path == "/admin/metadata"@,
        req.uri.query is None,
    ensures
        crate::handler::routed(req, stream) == (
            SessionView::Closed,
            ActionView::Finish(Ok(())),
            stream,
        ),
{
    crate::heads::lemma_paths_differ();
}

/// No two entries have the same name.
pub open spec fn distinct(entries: Seq<(Seq<char>, Seq<Seq<u8>>)>) -> bool {
    forall|i: int, j: int|
        0 <= i < j < entries.len() ==> (#[trigger] entries[i]).0 != (#[trigger] entries[j]).0
}

proof fn lemma_values_of(entries: Seq<(Seq<char>, Seq<Seq<u8>>)>, name: Seq<char>, at: int)
    requires
        distinct(entries),
        0 <= at <= entries.len(),
        at < entries.len() ==> entries[at].0 == name,
        at == entries.len() ==> forall|i: int|
            0 <= i < entries.len() ==> (#[trigger] entries[i]).0 != name,
    ensures
        crate::laws::values_of(entries, name) == if at < entries.len() {
            entries[at].1
        } else {
            seq![]
        },
    decreases entries.len(),
{
    if entries.len() > 0 {
        let fewer = entries.drop_last();
        assert(entries.last() == entries[entries.len() - 1]);
        assert(forall|i: int| 0 <= i < fewer.len() ==> #[trigger] fewer[i] == entries[i]);
        if at >= fewer.len() {
            lemma_values_of(fewer, name, fewer.len() as int);
            if at < entries.len() {
                assert(crate::laws::values_of(entries, name) =~= entries[at].1);
            }
        } else {
            lemma_values_of(fewer, name, at);
        }
    }
}

/// A value that is put into a header map is the one value of its name; one that is
/// added comes behind the values that the name has. What other names have stays, and
/// so does the order of the names.
pub proof fn law_put_and_add(
    entries: Seq<(Seq<char>, Seq<Seq<u8>>)>,
    name: Seq<char>,
    value: Seq<u8>,
    other: Seq<char>,
)
    requires
        distinct(entries),
        other != name,
    ensures
        ({
            let put = crate::headers::inserted(entries, name, value);
            let added = crate::headers::appended(entries, name, value);
            &&& distinct(put) && distinct(added)
            &&& crate::laws::values_of(put, name) == seq![value]
            &&& crate::laws::values_of(put, other) == crate::laws::values_of(entries, other)
            &&& crate::laws::values_of(added, name) == crate::laws::values_of(entries, name).push(
                value,
            )
            &&& crate::laws::values_of(added, other) == crate::laws::values_of(entries, other)
            &&& entries.len() <= put.len() && entries.len() <= added.len()
            &&& forall|i: int|
                0 <= i < entries.len() ==> put[i].0 == (#[trigger] entries[i]).0 && added[i].0
                    == entries[i].0
        }),
{
    let put = crate::headers::inserted(entries, name, value);
    let added = crate::headers::appended(entries, name, value);
    let at = crate::headers::place(entries, name);
    let of_other = crate::headers::place(entries, other);
    crate::headers::lemma_place(entries, name);
    crate::headers::lemma_place(entries, other);
    lemma_values_of(entries, name, at);
    lemma_values_of(entries, other, of_other);
    lemma_values_of(put, name, at);
    lemma_values_of(added, name, at);
    if of_other < entries.len() {
        lemma_values_of(put, other, of_other);
        lemma_values_of(added, other, of_other);
    } else {
        lemma_values_of(put, other, put.len() as int);
        lemma_values_of(added, other, added.len() as int);
    }
    assert(crate::laws::values_of(added, name) =~= crate::laws::values_of(entries, name).push(value));
}

/// Each entry gives one line for each of its values, in their order, behind the
/// lines of the entries before it.
pub proof fn law_lines_of_entries(
    entries: Seq<(Seq<char>, Seq<Seq<u8>>)>,
    name: Seq<char>,
    values: Seq<Seq<u8>>,
)
    ensures
        crate::headers::field_lines(seq![]) == Seq::<(Seq<char>, Seq<u8>)>::empty(),
        crate::headers::field_lines(entries.push((name, values))) == crate::headers::field_lines(
            entries,
        ) + Seq::new(values.len(), |i: int| (name, values[i])),
{
    let more = entries.push((name, values));
    assert(more.drop_last() =~= entries);
    assert(crate::headers::field_lines(more) =~= crate::headers::field_lines(entries) + Seq::new(
        values.len(),
        |i: int| (name, values[i]),
    ));
}

/// What is looked up in a header map is the first value of the name, all of its
/// bytes, whatever the case of its letters; nothing is found for a text that is no
/// name.
pub proof fn law_looked_up(
    entries: Seq<(Seq<char>, Seq<Seq<u8>>)>,
    header: Seq<char>,
    value: Seq<u8>,
)
    ensures
        crate::headers::valid_name(header) && crate::headers::first_value(
            entries,
            crate::headers::lower(header),
        ) == Some(value) ==> crate::request::header_or_empty(entries, header) == value,
        !crate::headers::valid_name(header) || crate::headers::first_value(
            entries,
            crate::headers::lower(header),
        ) is None ==> crate::request::header_or_empty(entries, header).len() == 0,
{
}

/// A description is made of the first values of the three headers, and of no text
/// where there is none.
pub proof fn law_described_by_first_values(entries: Seq<(Seq<char>, Seq<Seq<u8>>)>)
    ensures
        crate::metadata::described(entries) == (StreamMetadataView {
            user_agent: match crate::headers::first_value(entries, "user-agent"@) {
                Some(value) => crate::metadata::utf8_lossy(value),
                None => seq![],
            },
            content_type: match crate::headers::first_value(entries, "content-type"@) {
                Some(value) => crate::metadata::utf8_lossy(value),
                None => seq![],
            },
            name: match crate::headers::first_value(entries, "ice-name"@) {
                Some(value) => crate::metadata::utf8_lossy(value),
                None => seq![],
            },
        }),
{
}

/// A track is made of the last values of the three names, and of nothing else.
pub proof fn law_track_of_pairs(pairs: Seq<(Seq<char>, Seq<char>)>)
    ensures
        crate::metadata::track_of(pairs).artist == crate::metadata::last_value(pairs, "artist"@),
        crate::metadata::track_of(pairs).title == crate::metadata::last_value(pairs, "title"@),
        crate::metadata::track_of(pairs).album == crate::metadata::last_value(pairs, "album"@),
{
}

/// A request is made of a method, a target and headers where there is no error, and
/// else the first error is reported: of the method, then of the target, then of the
/// headers.
pub proof fn law_assembled(
    method: Result<Seq<char>, Seq<char>>,
    uri: Result<UriView, Seq<char>>,
    headers: Seq<(Seq<char>, Seq<u8>)>,
)
    ensures
        ({
            let r = crate::request::assembled(method, uri, headers);
            &&& r is Ok <==> method is Ok && uri is Ok && crate::request::collected(headers) is Ok
            &&& r is Ok ==> r->Ok_0 == (RequestView {
                version: "HTTP/1.1"@,
                method: method->Ok_0,
                uri: uri->Ok_0,
                headers: crate::request::collected(headers)->Ok_0,
            })
            &&& method is Err ==> r->Err_0 == HandlerErrorView::ResponseError(method->Err_0)
            &&& method is Ok && uri is Err ==> r->Err_0 == HandlerErrorView::ResponseError(
                uri->Err_0,
            )
            &&& method is Ok && uri is Ok && crate::request::collected(headers) is Err
                ==> r->Err_0 == HandlerErrorView::RequestError(
                crate::request::collected(headers)->Err_0,
            )
        }),
{
}

/// A head can be made something of unless it has headers behind a method or a target
/// that no request can have.
pub proof fn law_buildable_heads(parsed: ParsedView)
    ensures
        !crate::request::buildable(parsed) <==> parsed.headers.len() > 0 && parsed.method is Some
            && parsed.path is Some && !(crate::request::valid_method(parsed.method->0)
            && crate::request::http_uri(parsed.path->0) is Ok),
{
}

/// Lists of texts and bytes hold what their items hold, in their order.
pub proof fn law_lists(
    pairs: Seq<(String, String)>,
    fields: Seq<(String, Vec<u8>)>,
    i: int,
    j: int,
)
    requires
        0 <= i < pairs.len(),
        0 <= j < fields.len(),
    ensures
        crate::metadata::pairs_view(pairs).len() == pairs.len(),
        crate::metadata::pairs_view(pairs)[i] == (pairs[i].0@, pairs[i].1@),
        crate::headers::fields_view(fields).len() == fields.len(),
        crate::headers::fields_view(fields)[j] == (fields[j].0@, fields[j].1@),
{
}

/// What comes of the bytes of a head that is read with room for sixteen headers.
pub proof fn law_bytes_of_a_head(buf: Seq<u8>)
    ensures
        crate::request::request_read(buf) == match crate::request::httparse_request(buf, 16) {
            Err(e) => Some(
                Err::<RequestView, HandlerErrorView>(HandlerErrorView::RequestError(e)),
            ),
            Ok(parsed) => if parsed.headers.len() > 0 && parsed.method is Some && parsed.path is Some
                && !(crate::request::valid_method(parsed.method->0) && crate::request::http_uri(
                parsed.path->0,
            ) is Ok) {
                None
            } else {
                Some(crate::request::converted(parsed))
            },
        },
{
}

/// The outcome of reading something holds what was read, or the error.
pub proof fn law_outcomes(
    text: String,
    uri: Uri,
    parsed: ParsedRequest,
    parse: ParseError,
    req: Request,
    e: HandlerError,
    mime: Mime,
)
    ensures
        crate::request::text_result(Ok(text)) == Ok::<Seq<char>, Seq<char>>(text@),
        crate::request::text_result(Err(text)) == Err::<Seq<char>, Seq<char>>(text@),
        crate::request::uri_view(Ok(uri)) == Ok::<UriView, Seq<char>>(uri@),
        crate::request::uri_view(Err(text)) == Err::<UriView, Seq<char>>(text@),
        crate::request::parsed_view(Ok(parsed)) == Ok::<ParsedView, ParseError>(parsed@),
        crate::request::parsed_view(Err(parse)) == Err::<ParsedView, ParseError>(parse),
        crate::request::request_view(Ok(req)) == Ok::<RequestView, HandlerErrorView>(req@),
        crate::request::request_view(Err(e)) == Err::<RequestView, HandlerErrorView>(e@),
        crate::media::mime_view(Some(mime)) == Some(mime@),
        crate::media::mime_view(None) is None,
{
}

/// A method is read as it is, or not at all.
pub proof fn law_method_as_it_is(text: Seq<char>)
    ensures
        crate::request::method_result(text) == if crate::request::valid_method(text) {
            Ok::<Seq<char>, Seq<char>>(text)
        } else {
            Err::<Seq<char>, Seq<char>>("invalid HTTP method"@)
        },
{
}

} // verus!
