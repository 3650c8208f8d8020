//! What each step of a connection does, and what it leaves as it is.

use crate::error::{HandlerError, HandlerErrorView, ParseError};
use crate::handler::{Action, ActionView, Event, EventView, Session, SessionView};
use crate::metadata::{
    MetadataContainer, MetadataContainerView, StreamMetadata, StreamMetadataView, TrackMetadata,
    TrackMetadataView,
};
use crate::queue::Subscriber;
use crate::request::{ParsedRequest, Request, RequestView, Uri};
use crate::stream::{Listener, Stream, StreamView};
use vstd::prelude::*;

verus! {

/// A stream is set up as configured: with the queue, the bitrate, the connections
/// and the password that are given, free, and with nothing known and nothing sent.
pub proof fn law_set_up_as_configured(
    content_type: Seq<char>,
    bitrate: usize,
    max_conns: usize,
    password: Seq<char>,
    buffer_size: usize,
)
    requires
        crate::stream::served_under(content_type) is Some,
    ensures
        ({
            let stream = crate::stream::set_up(
                content_type,
                bitrate,
                max_conns,
                password,
                buffer_size,
            );
            &&& stream.buffer_size == buffer_size
            &&& stream.bitrate == bitrate
            &&& stream.max_conns == max_conns
            &&& stream.password == password
            &&& crate::media::mime_parse(content_type) == Some(stream.content_type)
            &&& crate::stream::served_under(content_type) == Some(stream.listen_uri)
            &&& !stream.broadcasting
            &&& stream.sent.len() == 0
            &&& stream.metadata.stream is None
            &&& stream.metadata.track is None
            &&& stream.metadata.listeners == 0
        }),
{
}

/// Streams of MP3 and of Ogg audio are served, each under its path, whatever the
/// parameters of their media type are; and no others.
pub proof fn law_served_media_types(content_type: Seq<char>)
    ensures
        ({
            let path = crate::stream::served_under(content_type);
            match crate::media::mime_parse(content_type) {
                Some(mime) => {
                    &&& path == Some("/listen.mp3"@) <==> mime.type_ == "audio"@ && mime.subtype
                        == "mpeg"@
                    &&& path == Some("/listen.ogg"@) <==> mime.type_ == "audio"@ && mime.subtype
                        == "ogg"@
                    &&& path is Some ==> path == Some("/listen.mp3"@) || path == Some(
                        "/listen.ogg"@,
                    )
                },
                None => path is None,
            }
        }),
{
    reveal_strlit("/listen.mp3");
    reveal_strlit("/listen.ogg");
    reveal_strlit("mpeg");
    reveal_strlit("ogg");
    assert("/listen.mp3"@[8] == 'm' && "/listen.ogg"@[8] == 'o');
    assert("mpeg"@.len() == 4 && "ogg"@.len() == 3);
}

/// A buffer can be set up exactly where the memory for its places, and for one more,
/// can be asked for.
pub proof fn law_buffer_fits(size: usize)
    ensures
        crate::queue::fits(size) <==> 8 * size + 8 <= isize::MAX,
{
}

/// The count goes up by one for each listener and down by one for each that leaves,
/// and starts again at zero behind the largest number.
pub proof fn law_count_of_listeners(n: u64)
    ensures
        n < u64::MAX ==> crate::stream::one_more(n) == n + 1,
        n > 0 ==> crate::stream::one_less(n) == n - 1,
        crate::stream::one_more(u64::MAX) == 0,
        crate::stream::one_less(crate::stream::one_more(n)) == n,
        crate::stream::one_more(crate::stream::one_less(n)) == n,
{
}

/// The last chunks are those at the end, in their order, as many as wanted or as
/// there are.
pub proof fn law_newest_chunks(chunks: Seq<Seq<u8>>, limit: int)
    requires
        limit >= 0,
    ensures
        ({
            let last = crate::queue::newest(chunks, limit);
            &&& last.len() == if chunks.len() <= limit {
                chunks.len() as int
            } else {
                limit
            }
            &&& forall|i: int|
                0 <= i < last.len() ==> #[trigger] last[i] == chunks[chunks.len() - last.len() + i]
        }),
{
}

/// A queue holds for one who joins the newest chunks, as many as it keeps, or one
/// where it is to keep none, but no more than it has counted since its count last
/// started again.
pub proof fn law_held_chunks(chunks: Seq<Seq<u8>>, limit: usize)
    ensures
        chunks.len() <= usize::MAX ==> crate::queue::held(chunks, limit) == crate::queue::newest(
            chunks,
            if limit == 0 {
                1
            } else {
                limit as int
            },
        ),
        ({
            let counted = chunks.len() as int % (usize::MAX + 1);
            &&& counted <= limit && limit > 0 ==> crate::queue::held(chunks, limit)
                == crate::queue::newest(chunks, counted)
            &&& counted >= limit && limit > 0 ==> crate::queue::held(chunks, limit)
                == crate::queue::newest(chunks, limit as int)
        }),
{
    if chunks.len() <= usize::MAX {
        vstd::arithmetic::div_mod::lemma_small_mod(chunks.len(), (usize::MAX + 1) as nat);
    }
}

/// An end of a queue at which one joins a stream hands out first what the queue
/// holds.
pub proof fn law_joining(subscriber: Subscriber, stream: StreamView)
    ensures
        crate::stream::joined(subscriber, stream) <==> crate::queue::backlog(subscriber)
            == crate::queue::held(stream.sent, stream.buffer_size),
{
}

/// Where what is sent still comes to all to whom it came before, it comes to each of
/// them.
pub proof fn law_feeding(before: Stream, after: Stream, subscriber: Subscriber)
    requires
        crate::stream::feeds_on(before, after),
        before.feeds(subscriber),
    ensures
        after.feeds(subscriber),
{
}

/// One who listens stays at the same end of the queue; one who starts to listen gets
/// an end of the queue of this stream, with what the queue holds.
pub proof fn law_staying_tuned(
    before: Session,
    after: Session,
    stream: StreamView,
    then: Stream,
    was: Listener,
    now: Listener,
)
    requires
        crate::handler::stays_tuned(before, after, stream, then),
        after == Session::Listening(now) || after == Session::Relaying(now),
    ensures
        before == Session::Listening(was) || before == Session::Relaying(was) ==> now.subscribed()
            == was.subscribed(),
        before == Session::Greeting ==> then.feeds(now.subscribed()) && crate::queue::backlog(
            now.subscribed(),
        ) == crate::queue::held(stream.sent, stream.buffer_size),
{
}

/// Texts that are kept as they came are the decodings of the bytes that came.
pub proof fn law_texts_as_they_came(
    req: RequestView,
    actual: Seq<char>,
    expected: Seq<char>,
    metadata: StreamMetadataView,
    value: Seq<u8>,
)
    requires
        vstd::utf8::valid_utf8(value),
    ensures
        crate::handler::texts_kept(
            req,
            SessionView::Refusing(HandlerErrorView::UnsupportedContentType { actual, expected }),
        ) && crate::request::header_or_empty(req.headers, "content-type"@) == value ==> actual
            == vstd::utf8::decode_utf8(value),
        crate::handler::texts_kept(req, SessionView::Accepting(metadata)) ==> {
            &&& crate::headers::first_value(req.headers, "user-agent"@) == Some(value)
                ==> metadata.user_agent == vstd::utf8::decode_utf8(value)
            &&& crate::headers::first_value(req.headers, "content-type"@) == Some(value)
                ==> metadata.content_type == vstd::utf8::decode_utf8(value)
            &&& crate::headers::first_value(req.headers, "ice-name"@) == Some(value)
                ==> metadata.name == vstd::utf8::decode_utf8(value)
        },
{
}

/// A request is answered by its path and by nothing else that happened on the
/// connection.
pub proof fn law_requests_are_routed(session: SessionView, req: RequestView, stream: StreamView)
    ensures
        crate::handler::stepped(session, EventView::Requested(Ok(req)), stream)
            == crate::handler::routed(req, stream),
{
}

/// A connection on which nothing comes, or no request, ends at once: without an
/// error or with that of the request. The stream stays as it is.
pub proof fn law_no_request(e: HandlerErrorView, stream: StreamView)
    ensures
        crate::handler::stepped(SessionView::Opened, EventView::Received(seq![]), stream) == (
            SessionView::Closed,
            ActionView::Finish(Ok(())),
            stream,
        ),
        crate::handler::stepped(SessionView::Opened, EventView::Requested(Err(e)), stream) == (
            SessionView::Closed,
            ActionView::Finish(Err(e)),
            stream,
        ),
{
}

/// One who has been greeted listens and is counted; nothing else changes.
pub proof fn law_greeted(stream: StreamView)
    ensures
        crate::handler::stepped(SessionView::Greeting, EventView::Written, stream) == (
            SessionView::Listening,
            ActionView::Await,
            StreamView {
                metadata: MetadataContainerView {
                    listeners: if stream.metadata.listeners == u64::MAX {
                        0
                    } else {
                        (stream.metadata.listeners + 1) as u64
                    },
                    ..stream.metadata
                },
                ..stream
            },
        ),
{
}

/// A chunk from the queue is written to the listener byte for byte, and then the
/// next one is awaited. The stream stays as it is.
pub proof fn law_chunk_is_relayed(chunk: Seq<u8>, stream: StreamView)
    ensures
        crate::handler::stepped(SessionView::Listening, EventView::Chunk(Some(chunk)), stream) == (
            SessionView::Relaying,
            ActionView::Write(chunk),
            stream,
        ),
        crate::handler::stepped(SessionView::Listening, EventView::Chunk(None), stream) == (
            SessionView::Listening,
            ActionView::Await,
            stream,
        ),
        crate::handler::stepped(SessionView::Relaying, EventView::Written, stream) == (
            SessionView::Listening,
            ActionView::Await,
            stream,
        ),
{
}

/// A source that has been told to go on is described by what it said, and may send;
/// one that has been refused lets go of the stream. Nothing else changes.
pub proof fn law_source_answered(
    metadata: StreamMetadataView,
    e: HandlerErrorView,
    stream: StreamView,
)
    ensures
        crate::handler::stepped(SessionView::Accepting(metadata), EventView::Written, stream) == (
            SessionView::Receiving,
            ActionView::Read,
            StreamView {
                metadata: MetadataContainerView { stream: Some(metadata), ..stream.metadata },
                ..stream
            },
        ),
        crate::handler::stepped(SessionView::Refusing(e), EventView::Written, stream) == (
            SessionView::Closed,
            ActionView::Finish(Err(e)),
            StreamView { broadcasting: false, ..stream },
        ),
{
}

/// A chunk of a source goes to the queue byte for byte, and the next one is read.
/// When the source closes its connection the stream is free, and what was known of
/// the source and of the track is forgotten. Nothing else changes.
pub proof fn law_source_sends(chunk: Seq<u8>, stream: StreamView)
    requires
        chunk.len() > 0,
    ensures
        crate::handler::stepped(SessionView::Receiving, EventView::Received(chunk), stream) == (
            SessionView::Receiving,
            ActionView::Read,
            StreamView { sent: stream.sent.push(chunk), ..stream },
        ),
        crate::handler::stepped(SessionView::Receiving, EventView::Received(seq![]), stream) == (
            SessionView::Closed,
            ActionView::Finish(Ok(())),
            StreamView {
                broadcasting: false,
                metadata: MetadataContainerView { stream: None, track: None, ..stream.metadata },
                ..stream
            },
        ),
{
}

/// One who asks is told all that is known at the moment when the head has been
/// written, and the connection then ends. The stream stays as it is.
pub proof fn law_metadata_are_told(e: Seq<char>, stream: StreamView)
    ensures
        crate::handler::stepped(SessionView::Reporting, EventView::Written, stream) == (
            SessionView::Describing,
            ActionView::Describe(stream.metadata),
            stream,
        ),
        crate::handler::stepped(SessionView::Describing, EventView::Written, stream) == (
            SessionView::Closed,
            ActionView::Finish(Ok(())),
            stream,
        ),
        crate::handler::stepped(SessionView::Describing, EventView::Unwritable(e), stream) == (
            SessionView::Closed,
            ActionView::Finish(Err(HandlerErrorView::JsonWriteError(e))),
            stream,
        ),
{
}

/// A last answer that has been written ends the connection with its outcome.
pub proof fn law_last_answer(outcome: Result<(), HandlerErrorView>, stream: StreamView)
    ensures
        crate::handler::stepped(SessionView::Replying(outcome), EventView::Written, stream) == (
            SessionView::Closed,
            ActionView::Finish(outcome),
            stream,
        ),
{
}

/// A failure ends the connection with its message, at whatever point. A listener is
/// counted no more, a source lets go of the stream, and nothing else changes.
pub proof fn law_failure(session: SessionView, failure: Seq<char>, stream: StreamView)
    requires
        !(session is Closed),
    ensures
        session.expects(EventView::Failed(failure)),
        crate::handler::stepped(session, EventView::Failed(failure), stream) == (
            SessionView::Closed,
            ActionView::Finish(Err(HandlerErrorView::IoError(failure))),
            match session {
                SessionView::Listening | SessionView::Relaying => StreamView {
                    metadata: MetadataContainerView {
                        listeners: if stream.metadata.listeners == 0 {
                            u64::MAX
                        } else {
                            (stream.metadata.listeners - 1) as u64
                        },
                        ..stream.metadata
                    },
                    ..stream
                },
                SessionView::Accepting(_)
                | SessionView::Refusing(_)
                | SessionView::Receiving => StreamView { broadcasting: false, ..stream },
                _ => stream,
            },
        ),
{
}

/// A connection can go on with what it waits for at each point.
pub proof fn law_awaited_events(
    session: SessionView,
    r: Result<RequestView, HandlerErrorView>,
    bytes: Seq<u8>,
    chunk: Option<Seq<u8>>,
    e: Seq<char>,
)
    ensures
        session is Opened ==> session.expects(EventView::Requested(r)) && session.expects(
            EventView::Received(seq![]),
        ),
        session is Receiving ==> session.expects(EventView::Received(bytes)),
        session is Listening ==> session.expects(EventView::Chunk(chunk)),
        session is Describing ==> session.expects(EventView::Unwritable(e)),
        session is Greeting || session is Relaying || session is Accepting || session is Refusing
            || session is Reporting || session is Describing || session is Replying
            ==> session.expects(EventView::Written),
        session is Closed ==> !session.expects(EventView::Requested(r)) && !session.expects(
            EventView::Received(bytes),
        ) && !session.expects(EventView::Written) && !session.expects(EventView::Chunk(chunk))
            && !session.expects(EventView::Unwritable(e)) && !session.expects(
            EventView::Failed(e),
        ),
{
}

/// A connection is counted among the listeners while it listens, and holds the
/// stream while it sends or may learn that it must not.
pub proof fn law_who_listens_and_sends(session: SessionView)
    ensures
        session.listens() <==> session is Listening || session is Relaying,
        session.sends() <==> session is Accepting || session is Refusing || session is Receiving,
{
}

/// What is reported of an error names its kind and all that is known of it.
pub proof fn law_error_reports(
    parse: ParseError,
    text: Seq<char>,
    other: Seq<char>,
    req: RequestView,
)
    ensures
        HandlerErrorView::RequestError(parse).words() == "failed to parse request from client: `"@
            + parse.words() + "`"@,
        HandlerErrorView::ResponseError(text).words() == "failed to create response for client: `"@
            + text + "`"@,
        HandlerErrorView::InvalidHttp.words()
            == "other side didn't send valid a valid http request"@,
        HandlerErrorView::JsonWriteError(text).words()
            == "failed to create JSON blob response for client: `"@ + text + "`"@,
        HandlerErrorView::IoError(text).words() == "i/o failed for client: `"@ + text + "`"@,
        HandlerErrorView::StreamDisconnected(text).words()
            == "source attempted to stream data, but the stream no longer exists: `"@ + text
            + "`"@,
        HandlerErrorView::StreamAlreadyConnected.words()
            == "source is already connected to the requested mountpoint"@,
        (HandlerErrorView::UnsupportedContentType { actual: text, expected: other }).words()
            == "source attempted to stream mime-type "@ + text
            + " whereas the stream is defined as "@ + other,
        HandlerErrorView::EndpointNotFound(req).words() == "endpoint not found: `"@ + req.method
            + " "@ + req.uri.text + "`"@,
        parse.words() == match parse {
            ParseError::HeaderName => "invalid header name"@,
            ParseError::HeaderValue => "invalid header value"@,
            ParseError::NewLine => "invalid new line"@,
            ParseError::Status => "invalid response status"@,
            ParseError::Token => "invalid token"@,
            ParseError::TooManyHeaders => "too many headers"@,
            ParseError::Version => "invalid HTTP version"@,
        },
{
}

/// The text that is there, if any is, in a field of the metadata or of a head.
pub proof fn law_optional_texts(text: String, part: &str)
    ensures
        crate::text::optional_text(Some(text)) == Some(text@),
        crate::text::optional_text(None) is None,
        crate::text::optional_str(Some(part)) == Some(part@),
        crate::text::optional_str(None) is None,
{
}

/// The metadata hold what their fields hold.
pub proof fn law_metadata_fields(
    known: MetadataContainer,
    stream: StreamMetadata,
    track: TrackMetadata,
)
    ensures
        known@.listeners == known.listeners,
        known.stream is None <==> known@.stream is None,
        known.stream == Some(stream) ==> known@.stream == Some(stream@),
        known.track is None <==> known@.track is None,
        known.track == Some(track) ==> known@.track == Some(track@),
        stream@ == (StreamMetadataView {
            user_agent: stream.user_agent@,
            content_type: stream.content_type@,
            name: stream.name@,
        }),
        track@ == (TrackMetadataView {
            artist: crate::text::optional_text(track.artist),
            title: crate::text::optional_text(track.title),
            album: crate::text::optional_text(track.album),
        }),
{
}

/// A head and a target hold what their fields hold.
pub proof fn law_head_fields(parsed: ParsedRequest, uri: Uri, i: int)
    requires
        0 <= i < parsed.headers@.len(),
    ensures
        parsed@.method == crate::text::optional_text(parsed.method),
        parsed@.path == crate::text::optional_text(parsed.path),
        parsed@.version == parsed.version,
        parsed@.headers.len() == parsed.headers@.len(),
        parsed@.headers[i] == (parsed.headers@[i].0@, parsed.headers@[i].1@),
        uri@.text == uri.text@,
        uri@.path == uri.path@,
        uri@.query == crate::text::optional_text(uri.query),
{
}

/// Events and actions hold the bytes and texts that they carry.
pub proof fn law_events_and_actions(bytes: Vec<u8>, text: String, known: MetadataContainer)
    ensures
        Event::Received(bytes)@ == EventView::Received(bytes@),
        Event::Chunk(Some(bytes))@ == EventView::Chunk(Some(bytes@)),
        Event::Chunk(None)@ == EventView::Chunk(None),
        Event::Written@ == EventView::Written,
        Event::Unwritable(text)@ == EventView::Unwritable(text@),
        Event::Failed(text)@ == EventView::Failed(text@),
        Action::Read@ == ActionView::Read,
        Action::Write(bytes)@ == ActionView::Write(bytes@),
        Action::Describe(known)@ == ActionView::Describe(known@),
        Action::Await@ == ActionView::Await,
{
}

/// A change of one thing that a stream holds is a change of that alone.
pub proof fn law_one_change_at_a_time(
    stream: StreamView,
    broadcasting: bool,
    listeners: u64,
    source: Option<StreamMetadataView>,
    track: Option<TrackMetadataView>,
    sent: Seq<Seq<u8>>,
)
    ensures
        stream.with_broadcasting(broadcasting) == (StreamView { broadcasting, ..stream }),
        stream.with_sent(sent) == (StreamView { sent, ..stream }),
        stream.with_listeners(listeners) == (StreamView {
            metadata: MetadataContainerView { listeners, ..stream.metadata },
            ..stream
        }),
        stream.with_stream(source) == (StreamView {
            metadata: MetadataContainerView { stream: source, ..stream.metadata },
            ..stream
        }),
        stream.with_track(track) == (StreamView {
            metadata: MetadataContainerView { track, ..stream.metadata },
            ..stream
        }),
        stream.with_metadata(stream.with_track(track).metadata) == stream.with_track(track),
{
}

/// The path of a type and a subtype, letter for letter.
pub proof fn law_listen_paths(type_: Seq<char>, subtype: Seq<char>)
    ensures
        type_ == "audio"@ && subtype == "mpeg"@ ==> crate::media::listen_path(type_, subtype)
            == Some("/listen.mp3"@),
        type_ == "audio"@ && subtype == "ogg"@ ==> crate::media::listen_path(type_, subtype)
            == Some("/listen.ogg"@),
        type_ != "audio"@ || subtype != "mpeg"@ && subtype != "ogg"@ ==> crate::media::listen_path(
            type_,
            subtype,
        ) is None,
{
    reveal_strlit("mpeg");
    reveal_strlit("ogg");
    assert("mpeg"@.len() == 4 && "ogg"@.len() == 3);
}

/// A stream that has been set up can be asked for and sent to under its paths, and
/// its media type can be sent in a header.
pub proof fn law_well_formed(stream: StreamView)
    requires
        stream.wf(),
    ensures
        crate::headers::valid_text(stream.content_type.source),
        stream.listen_uri == "/listen.mp3"@ || stream.listen_uri == "/listen.ogg"@,
        stream.content_type.type_ == "audio"@,
        stream.listen_uri == "/listen.mp3"@ <==> stream.content_type.subtype == "mpeg"@,
{
    law_listen_paths(stream.content_type.type_, stream.content_type.subtype);
    reveal_strlit("/listen.mp3");
    reveal_strlit("/listen.ogg");
    reveal_strlit("mpeg");
    reveal_strlit("ogg");
    assert("/listen.mp3"@[8] == 'm' && "/listen.ogg"@[8] == 'o');
    assert("mpeg"@.len() == 4 && "ogg"@.len() == 3);
}

/// Sessions hold what the source said, why it is refused, or the outcome.
pub proof fn law_sessions(session: Session, e: HandlerError)
    ensures
        session is Opened <==> session@ is Opened,
        session is Greeting <==> session@ is Greeting,
        session is Listening <==> session@ is Listening,
        session is Relaying <==> session@ is Relaying,
        session is Receiving <==> session@ is Receiving,
        session is Reporting <==> session@ is Reporting,
        session is Describing <==> session@ is Describing,
        session is Closed <==> session@ is Closed,
        session matches Session::Accepting(_, said) ==> session@ == SessionView::Accepting(said@),
        session matches Session::Refusing(_, why) ==> session@ == SessionView::Refusing(why@),
        session == Session::Replying(Ok(())) ==> session@ == SessionView::Replying(Ok(())),
        session == Session::Replying(Err(e)) ==> session@ == SessionView::Replying(Err(e@)),
        Action::Finish(Ok(()))@ == ActionView::Finish(Ok(())),
        Action::Finish(Err(e))@ == ActionView::Finish(Err(e@)),
        Event::Requested(Err(e))@ == EventView::Requested(Err(e@)),
{
}

/// Errors hold the message, the texts or the request that they name.
pub proof fn law_errors(parse: ParseError, text: String, other: String, req: Request)
    ensures
        HandlerError::RequestError(parse)@ == HandlerErrorView::RequestError(parse),
        HandlerError::ResponseError(text)@ == HandlerErrorView::ResponseError(text@),
        HandlerError::InvalidHttp@ == HandlerErrorView::InvalidHttp,
        HandlerError::JsonWriteError(text)@ == HandlerErrorView::JsonWriteError(text@),
        HandlerError::IoError(text)@ == HandlerErrorView::IoError(text@),
        HandlerError::StreamDisconnected(text)@ == HandlerErrorView::StreamDisconnected(text@),
        HandlerError::StreamAlreadyConnected@ == HandlerErrorView::StreamAlreadyConnected,
        (HandlerError::UnsupportedContentType { actual: text, expected: other })@ == (
        HandlerErrorView::UnsupportedContentType { actual: text@, expected: other@ }),
        HandlerError::EndpointNotFound(req)@ == HandlerErrorView::EndpointNotFound(req@),
        Event::Requested(Ok(req))@ == EventView::Requested(Ok(req@)),
{
}

} // verus!
