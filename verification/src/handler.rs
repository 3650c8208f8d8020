//! How a connection is served.
//!
//! A connection is a [`Session`]. Whoever runs it does what the last [`Action`]
//! says, and tells [`process`] by an [`Event`] how that went.

use crate::error::{HandlerError, HandlerErrorView};
use crate::metadata::{
    from_utf8_lossy, MetadataContainer, MetadataContainerView, StreamMetadata, StreamMetadataView,
    TrackMetadata,
};
use crate::queue::Subscriber;
use crate::request::{header_bytes_or_empty, read_request, Request, RequestView};
use crate::response::Response;
use crate::stream::{BroadcastHandle, Listener, Stream, StreamView};
use crate::text::{join, same_bytes, same_text};
use vstd::prelude::*;

verus! {

/// How far a connection has come.
#[derive(Debug)]
pub enum Session {
    /// No request has been read.
    Opened,
    /// A listener is being answered.
    Greeting,
    /// A listener waits for the next chunk.
    Listening(Listener),
    /// A chunk is being written to a listener.
    Relaying(Listener),
    /// A source is being answered that may send.
    Accepting(BroadcastHandle, StreamMetadata),
    /// A source is being answered that may not send.
    Refusing(BroadcastHandle, HandlerError),
    /// The next chunk of a source is awaited.
    Receiving(BroadcastHandle),
    /// The head of an answer with the metadata is being written.
    Reporting,
    /// The metadata are being written.
    Describing,
    /// The last answer is being written; the outcome is known.
    Replying(Result<(), HandlerError>),
    /// The connection is over.
    Closed,
}

/// What happened on a connection.
#[derive(Debug)]
pub enum Event {
    /// The first bytes came and were read as a request.
    Requested(Result<Request, HandlerError>),
    /// Bytes came; none, where the other side has closed the connection.
    Received(Vec<u8>),
    /// What was to be written has been written.
    Written,
    /// The queue of the stream gave a chunk, or has none any more.
    Chunk(Option<Vec<u8>>),
    /// The metadata could not be put in words.
    Unwritable(String),
    /// Reading from or writing to the connection failed.
    Failed(String),
}

/// What is to be done on a connection.
#[derive(Debug)]
pub enum Action {
    /// Read what comes next.
    Read,
    /// Write these bytes.
    Write(Vec<u8>),
    /// Write these metadata as JSON.
    Describe(MetadataContainer),
    /// Wait for the next chunk of the stream.
    Await,
    /// Close the connection, with this outcome.
    Finish(Result<(), HandlerError>),
}

/// What a [`Session`] holds.
pub enum SessionView {
    Opened,
    Greeting,
    Listening,
    Relaying,
    Accepting(StreamMetadataView),
    Refusing(HandlerErrorView),
    Receiving,
    Reporting,
    Describing,
    Replying(Result<(), HandlerErrorView>),
    Closed,
}

/// What an [`Event`] tells.
pub enum EventView {
    Requested(Result<RequestView, HandlerErrorView>),
    Received(Seq<u8>),
    Written,
    Chunk(Option<Seq<u8>>),
    Unwritable(Seq<char>),
    Failed(Seq<char>),
}

/// What an [`Action`] asks for.
pub enum ActionView {
    Read,
    Write(Seq<u8>),
    Describe(MetadataContainerView),
    Await,
    Finish(Result<(), HandlerErrorView>),
}

/// The outcome of a connection.
pub open spec fn outcome_view(outcome: Result<(), HandlerError>) -> Result<(), HandlerErrorView> {
    match outcome {
        Ok(()) => Ok(()),
        Err(e) => Err(e@),
    }
}

impl View for Session {
    type V = SessionView;

    open spec fn view(&self) -> SessionView {
        match self {
            Session::Opened => SessionView::Opened,
            Session::Greeting => SessionView::Greeting,
            Session::Listening(_) => SessionView::Listening,
            Session::Relaying(_) => SessionView::Relaying,
            Session::Accepting(_, metadata) => SessionView::Accepting(metadata@),
            Session::Refusing(_, e) => SessionView::Refusing(e@),
            Session::Receiving(_) => SessionView::Receiving,
            Session::Reporting => SessionView::Reporting,
            Session::Describing => SessionView::Describing,
            Session::Replying(outcome) => SessionView::Replying(outcome_view(*outcome)),
            Session::Closed => SessionView::Closed,
        }
    }
}

impl View for Event {
    type V = EventView;

    open spec fn view(&self) -> EventView {
        match self {
            Event::Requested(r) => EventView::Requested(crate::request::request_view(*r)),
            Event::Received(bytes) => EventView::Received(bytes@),
            Event::Written => EventView::Written,
            Event::Chunk(Some(chunk)) => EventView::Chunk(Some(chunk@)),
            Event::Chunk(None) => EventView::Chunk(None),
            Event::Unwritable(e) => EventView::Unwritable(e@),
            Event::Failed(e) => EventView::Failed(e@),
        }
    }
}

impl View for Action {
    type V = ActionView;

    open spec fn view(&self) -> ActionView {
        match self {
            Action::Read => ActionView::Read,
            Action::Write(bytes) => ActionView::Write(bytes@),
            Action::Describe(metadata) => ActionView::Describe(metadata@),
            Action::Await => ActionView::Await,
            Action::Finish(outcome) => ActionView::Finish(outcome_view(*outcome)),
        }
    }
}

impl SessionView {
    /// Whether the connection is counted among the listeners.
    pub open spec fn listens(self) -> bool {
        self is Listening || self is Relaying
    }

    /// Whether the connection holds the right to send to the stream.
    pub open spec fn sends(self) -> bool {
        self is Accepting || self is Refusing || self is Receiving
    }

    /// Whether the event can happen at this point. Reading and writing can fail at
    /// any point, and else an event answers what the connection waits for.
    pub open spec fn expects(self, event: EventView) -> bool {
        match event {
            EventView::Requested(_) => self is Opened,
            EventView::Received(bytes) => self is Receiving || self is Opened && bytes.len() == 0,
            EventView::Written => {
                self is Greeting || self is Relaying || self is Accepting || self is Refusing
                    || self is Reporting || self is Describing || self is Replying
            },
            EventView::Chunk(_) => self is Listening,
            EventView::Unwritable(_) => self is Describing,
            EventView::Failed(_) => !(self is Closed),
        }
    }
}

/// A line of a response with a text as its value.
pub open spec fn line(name: Seq<char>, value: Seq<char>) -> (Seq<char>, Seq<u8>) {
    (name, vstd::utf8::encode_utf8(value))
}

/// The lines that come first in every response.
pub open spec fn first_lines() -> Seq<(Seq<char>, Seq<u8>)> {
    seq![
        line("server"@, crate::response::SERVER@),
        line("accept-encoding"@, "identity"@),
        line("connection"@, "keep-alive"@),
    ]
}

/// The lines of a response without anything special.
pub open spec fn plain_lines() -> Seq<(Seq<char>, Seq<u8>)> {
    first_lines() + seq![line("access-control-allow-origin"@, "*"@)]
}

/// The lines of a response after which the connection is closed.
pub open spec fn closing_lines() -> Seq<(Seq<char>, Seq<u8>)> {
    first_lines() + seq![
        line("connection"@, "Close"@),
        line("access-control-allow-origin"@, "*"@),
    ]
}

/// The answer to a listener.
pub open spec fn listener_answer(content_type: Seq<char>) -> Seq<u8> {
    crate::response::head_bytes(
        200,
        "OK"@,
        plain_lines() + seq![line("content-type"@, content_type)],
    )
}

/// The answer to a source.
pub open spec fn source_answer(code: int, reason: Seq<char>) -> Seq<u8> {
    crate::response::head_bytes(
        code,
        reason,
        closing_lines() + seq![line("allow"@, "PUT, SOURCE"@)],
    )
}

/// The answer to a source while another one holds the stream.
pub open spec fn occupied_answer() -> Seq<u8> {
    crate::response::head_bytes(403, "Mountpoint in use"@, plain_lines())
}

/// The head of the answer with the metadata.
pub open spec fn metadata_answer() -> Seq<u8> {
    crate::response::head_bytes(
        200,
        "OK"@,
        closing_lines() + seq![line("content-type"@, "application/json"@)],
    )
}

/// The answer to an update of the track.
pub open spec fn update_answer() -> Seq<u8> {
    crate::response::head_bytes(200, "OK"@, plain_lines())
}

/// The answer to a request for something that is not served.
pub open spec fn unknown_answer() -> Seq<u8> {
    crate::response::head_bytes(404, "Not Found"@, closing_lines())
}

/// What follows a request of a source that has just been given the stream: it may
/// send if its content type is that of the stream, byte for byte.
pub open spec fn admitted(req: RequestView, stream: StreamView) -> (
    SessionView,
    ActionView,
    StreamView,
) {
    let content_type = crate::request::header_or_empty(req.headers, "content-type"@);
    let expect = crate::request::header_or_empty(req.headers, "expect"@);
    let wanted = stream.content_type.source;
    if content_type != vstd::utf8::encode_utf8(wanted) {
        (
            SessionView::Refusing(
                HandlerErrorView::UnsupportedContentType {
                    actual: crate::metadata::utf8_lossy(content_type),
                    expected: wanted,
                },
            ),
            ActionView::Write(source_answer(403, "Content-Type must be "@ + wanted)),
            stream,
        )
    } else {
        (
            SessionView::Accepting(crate::metadata::described(req.headers)),
            ActionView::Write(
                if expect == vstd::utf8::encode_utf8("100-continue"@) {
                    source_answer(100, "Continue"@)
                } else {
                    source_answer(200, "OK"@)
                },
            ),
            stream,
        )
    }
}

/// Texts that came in UTF-8 are kept as they came: the content type in the reason
/// why a source is refused, and what a source that is accepted says of itself.
pub open spec fn texts_kept(req: RequestView, session: SessionView) -> bool {
    match session {
        SessionView::Refusing(e) => {
            let content_type = crate::request::header_or_empty(req.headers, "content-type"@);
            vstd::utf8::valid_utf8(content_type) ==> (
            e matches HandlerErrorView::UnsupportedContentType { actual, .. } && actual
                == vstd::utf8::decode_utf8(content_type))
        },
        SessionView::Accepting(metadata) => {
            &&& crate::metadata::says(req.headers, "user-agent"@, metadata.user_agent)
            &&& crate::metadata::says(req.headers, "content-type"@, metadata.content_type)
            &&& crate::metadata::says(req.headers, "ice-name"@, metadata.name)
        },
        _ => true,
    }
}

/// What follows a request.
pub open spec fn routed(req: RequestView, stream: StreamView) -> (
    SessionView,
    ActionView,
    StreamView,
) {
    if req.uri.path == stream.listen_uri {
        (
            SessionView::Greeting,
            ActionView::Write(listener_answer(stream.content_type.source)),
            stream,
        )
    } else if req.uri.path == "/stream"@ {
        if stream.broadcasting {
            (
                SessionView::Replying(Err(HandlerErrorView::StreamAlreadyConnected)),
                ActionView::Write(occupied_answer()),
                stream,
            )
        } else {
            admitted(req, stream.with_broadcasting(true))
        }
    } else if req.uri.path == "/metadata"@ {
        (SessionView::Reporting, ActionView::Write(metadata_answer()), stream)
    } else if req.uri.path == "/admin/metadata"@ {
        match req.uri.query {
            Some(query) => (
                SessionView::Replying(Ok(())),
                ActionView::Write(update_answer()),
                stream.with_track(
                    Some(
                        crate::metadata::track_of(
                            crate::metadata::form_pairs(vstd::utf8::encode_utf8(query)),
                        ),
                    ),
                ),
            ),
            None => (SessionView::Closed, ActionView::Finish(Ok(())), stream),
        }
    } else {
        (
            SessionView::Replying(Err(HandlerErrorView::EndpointNotFound(req))),
            ActionView::Write(unknown_answer()),
            stream,
        )
    }
}

/// The stream once a connection has let go of it.
pub open spec fn released(session: SessionView, stream: StreamView) -> StreamView {
    if session.listens() {
        stream.with_listeners(crate::stream::one_less(stream.metadata.listeners))
    } else if session.sends() {
        stream.with_broadcasting(false)
    } else {
        stream
    }
}

/// The end of a connection: it lets go of the stream.
pub open spec fn ended(
    session: SessionView,
    outcome: Result<(), HandlerErrorView>,
    stream: StreamView,
) -> (SessionView, ActionView, StreamView) {
    (SessionView::Closed, ActionView::Finish(outcome), released(session, stream))
}

/// What follows once the bytes of the last action have been written.
pub open spec fn written(session: SessionView, stream: StreamView) -> (
    SessionView,
    ActionView,
    StreamView,
) {
    match session {
        SessionView::Greeting => (
            SessionView::Listening,
            ActionView::Await,
            stream.with_listeners(crate::stream::one_more(stream.metadata.listeners)),
        ),
        SessionView::Relaying => (SessionView::Listening, ActionView::Await, stream),
        SessionView::Accepting(metadata) => (
            SessionView::Receiving,
            ActionView::Read,
            stream.with_stream(Some(metadata)),
        ),
        SessionView::Refusing(e) => ended(session, Err(e), stream),
        SessionView::Reporting => (
            SessionView::Describing,
            ActionView::Describe(stream.metadata),
            stream,
        ),
        SessionView::Replying(outcome) => ended(session, outcome, stream),
        _ => ended(session, Ok(()), stream),
    }
}

/// What follows an event.
pub open spec fn stepped(session: SessionView, event: EventView, stream: StreamView) -> (
    SessionView,
    ActionView,
    StreamView,
) {
    match event {
        EventView::Requested(Ok(req)) => routed(req, stream),
        EventView::Requested(Err(e)) => ended(session, Err(e), stream),
        EventView::Received(bytes) => if bytes.len() > 0 {
            (SessionView::Receiving, ActionView::Read, stream.with_sent(stream.sent.push(bytes)))
        } else if session is Receiving {
            ended(session, Ok(()), stream.with_stream(None).with_track(None))
        } else {
            ended(session, Ok(()), stream)
        },
        EventView::Written => written(session, stream),
        EventView::Chunk(Some(chunk)) => (
            SessionView::Relaying,
            ActionView::Write(chunk),
            stream,
        ),
        EventView::Chunk(None) => (SessionView::Listening, ActionView::Await, stream),
        EventView::Unwritable(e) => ended(
            session,
            Err(HandlerErrorView::JsonWriteError(e)),
            stream,
        ),
        EventView::Failed(e) => ended(session, Err(HandlerErrorView::IoError(e)), stream),
    }
}

/// Where the chunks for a listener come.
pub open spec fn subscriber_of(session: Session) -> Option<Subscriber> {
    match session {
        Session::Listening(listener) => Some(listener.subscribed()),
        Session::Relaying(listener) => Some(listener.subscribed()),
        _ => None,
    }
}

/// One who listens goes on where it is; one who starts to listen joins the stream,
/// and what is sent to the stream from then on comes there.
pub open spec fn stays_tuned(
    before: Session,
    after: Session,
    stream: StreamView,
    then: Stream,
) -> bool {
    match (subscriber_of(before), subscriber_of(after)) {
        (Some(subscriber), Some(same)) => same == subscriber,
        (None, Some(subscriber)) => {
            crate::stream::joined(subscriber, stream) && then.feeds(subscriber)
        },
        _ => true,
    }
}

/// The headers of a response after which the connection is closed.
spec fn closing_headers() -> Seq<(Seq<char>, Seq<Seq<u8>>)> {
    crate::response::common_headers().update(
        2,
        (
            "connection"@,
            seq![
                vstd::utf8::encode_utf8("keep-alive"@),
                vstd::utf8::encode_utf8("Close"@),
            ],
        ),
    )
}

/// An entry behind the others gives a line behind the others.
proof fn lemma_one_more_line(
    entries: Seq<(Seq<char>, Seq<Seq<u8>>)>,
    name: Seq<char>,
    value: Seq<char>,
)
    ensures
        crate::headers::field_lines(entries.push(crate::response::entry(name, value)))
            == crate::headers::field_lines(entries) + seq![line(name, value)],
{
    let more = entries.push(crate::response::entry(name, value));
    assert(more.drop_last() =~= entries);
    assert(crate::headers::field_lines(more) =~= crate::headers::field_lines(entries) + seq![
        line(name, value),
    ]);
}

/// The lines of the headers that responses start from.
proof fn lemma_lines()
    ensures
        crate::headers::field_lines(crate::response::common_headers()) == plain_lines(),
        crate::headers::field_lines(closing_headers()) == closing_lines(),
{
    let none = Seq::<(Seq<char>, Seq<Seq<u8>>)>::empty();
    let server = none.push(crate::response::entry("server"@, crate::response::SERVER@));
    let encoding = server.push(crate::response::entry("accept-encoding"@, "identity"@));
    let open = encoding.push(crate::response::entry("connection"@, "keep-alive"@));
    lemma_one_more_line(none, "server"@, crate::response::SERVER@);
    lemma_one_more_line(server, "accept-encoding"@, "identity"@);
    lemma_one_more_line(encoding, "connection"@, "keep-alive"@);
    lemma_one_more_line(open, "access-control-allow-origin"@, "*"@);
    assert(crate::response::common_headers() =~= open.push(
        crate::response::entry("access-control-allow-origin"@, "*"@),
    ));
    assert(crate::headers::field_lines(crate::response::common_headers()) =~= plain_lines());
    let close = encoding.push(closing_headers()[2]);
    assert(close.drop_last() =~= encoding);
    lemma_one_more_line(close, "access-control-allow-origin"@, "*"@);
    assert(closing_headers() =~= close.push(
        crate::response::entry("access-control-allow-origin"@, "*"@),
    ));
    assert(crate::headers::field_lines(close) =~= first_lines() + seq![
        line("connection"@, "Close"@),
    ]);
    assert(crate::headers::field_lines(closing_headers()) =~= closing_lines());
}

/// A response after which the connection is closed.
fn closing_response() -> (r: Response)
    ensures
        r@.status == 200,
        r@.headers == closing_headers(),
{
    let mut r = Response::new();
    proof {
        crate::response::lemma_sent();
        crate::headers::lemma_found(r@.headers, "connection"@, 2);
    }
    r.header("Connection", "Close");
    assert(r@.headers =~~= closing_headers());
    r
}

/// The answer to a listener.
fn answer_listener(content_type: &str) -> (r: Vec<u8>)
    requires
        crate::headers::valid_text(content_type@),
    ensures
        r@ == listener_answer(content_type@),
{
    let mut r = Response::new();
    proof {
        reveal_strlit("");
        crate::response::lemma_sent();
        lemma_lines();
        crate::headers::lemma_found(r@.headers, "content-type"@, 4);
        lemma_one_more_line(r@.headers, "content-type"@, content_type@);
    }
    r.header("Content-Type", content_type);
    r.encode("")
}

/// The answer to a source.
fn answer_source(code: u16, reason: &str) -> (r: Vec<u8>)
    requires
        code == 100 || code == 200 || code == 403,
    ensures
        r@ == source_answer(code as int, crate::response::reason_words(code, reason@)),
{
    let mut r = closing_response();
    proof {
        crate::response::lemma_sent();
        lemma_lines();
        crate::headers::lemma_found(r@.headers, "allow"@, 4);
        lemma_one_more_line(r@.headers, "allow"@, "PUT, SOURCE"@);
    }
    r.header("Allow", "PUT, SOURCE");
    r.status(code);
    r.encode(reason)
}

/// The answer to a source while another one holds the stream.
fn answer_occupied() -> (r: Vec<u8>)
    ensures
        r@ == occupied_answer(),
{
    let mut r = Response::new();
    proof {
        reveal_strlit("Mountpoint in use");
        lemma_lines();
    }
    r.status(403);
    r.encode("Mountpoint in use")
}

/// The head of the answer with the metadata.
fn answer_metadata() -> (r: Vec<u8>)
    ensures
        r@ == metadata_answer(),
{
    let mut r = closing_response();
    proof {
        reveal_strlit("");
        crate::response::lemma_sent();
        lemma_lines();
        crate::headers::lemma_found(r@.headers, "content-type"@, 4);
        lemma_one_more_line(r@.headers, "content-type"@, "application/json"@);
    }
    r.header("Content-Type", "application/json");
    r.encode("")
}

/// The answer to an update of the track.
fn answer_update() -> (r: Vec<u8>)
    ensures
        r@ == update_answer(),
{
    proof {
        reveal_strlit("");
        lemma_lines();
    }
    Response::new().encode("")
}

/// The answer to a request for something that is not served.
fn answer_unknown() -> (r: Vec<u8>)
    ensures
        r@ == unknown_answer(),
{
    let mut r = closing_response();
    proof {
        reveal_strlit("");
        lemma_lines();
    }
    r.status(404);
    r.encode("")
}

/// Decides whether a source that has been given the stream may send.
fn consider(req: &Request, handle: BroadcastHandle, content_type: &str) -> (r: (Session, Action))
    ensures
        forall|stream: StreamView|
            #![trigger admitted(req@, stream)]
            stream.content_type.source == content_type@ ==> admitted(req@, stream) == (
                r.0@,
                r.1@,
                stream,
            ),
        texts_kept(req@, r.0@),
{
    proof {
        reveal_strlit("");
        reveal_strlit("Content-Type must be ");
    }
    let actual = header_bytes_or_empty(req, "content-type");
    if !same_bytes(actual, content_type.as_bytes()) {
        let reason = join("Content-Type must be ", content_type, "");
        assert(reason@ =~= "Content-Type must be "@ + content_type@);
        (
            Session::Refusing(
                handle,
                HandlerError::UnsupportedContentType {
                    actual: from_utf8_lossy(actual),
                    expected: content_type.to_owned(),
                },
            ),
            Action::Write(answer_source(403, reason.as_str())),
        )
    } else {
        let expect = header_bytes_or_empty(req, "expect");
        let code: u16 = if same_bytes(expect, "100-continue".as_bytes()) {
            100
        } else {
            200
        };
        (
            Session::Accepting(handle, StreamMetadata::from(req.headers())),
            Action::Write(answer_source(code, "")),
        )
    }
}

/// Decides what follows a request.
pub fn route(req: Request, stream: &mut Stream) -> (r: (Session, Action))
    requires
        old(stream)@.wf(),
    ensures
        (r.0@, r.1@, final(stream)@) == routed(req@, old(stream)@),
        final(stream)@.wf(),
        texts_kept(req@, r.0@),
        crate::stream::feeds_on(*old(stream), *final(stream)),
{
    let path = req.uri().path.as_str();
    if same_text(path, stream.listen_uri()) {
        (Session::Greeting, Action::Write(answer_listener(stream.content_type())))
    } else if same_text(path, "/stream") {
        match stream.try_broadcast() {
            Ok(handle) => consider(&req, handle, stream.content_type()),
            Err(_) => (
                Session::Replying(Err(HandlerError::StreamAlreadyConnected)),
                Action::Write(answer_occupied()),
            ),
        }
    } else if same_text(path, "/metadata") {
        (Session::Reporting, Action::Write(answer_metadata()))
    } else if same_text(path, "/admin/metadata") {
        match &req.uri().query {
            Some(query) => {
                let track = TrackMetadata::from(query.as_str().as_bytes());
                stream.store_track(Some(track));
                (Session::Replying(Ok(())), Action::Write(answer_update()))
            },
            None => (Session::Closed, Action::Finish(Ok(()))),
        }
    } else {
        (
            Session::Replying(Err(HandlerError::EndpointNotFound(req))),
            Action::Write(answer_unknown()),
        )
    }
}

/// Ends a connection: it lets go of the stream.
fn end(session: Session, outcome: Result<(), HandlerError>, stream: &mut Stream) -> (r: (
    Session,
    Action,
))
    ensures
        (r.0@, r.1@, final(stream)@) == ended(session@, outcome_view(outcome), old(stream)@),
        crate::stream::feeds_on(*old(stream), *final(stream)),
{
    match session {
        Session::Listening(listener) => listener.close(stream),
        Session::Relaying(listener) => listener.close(stream),
        Session::Accepting(handle, _) => handle.release(stream),
        Session::Refusing(handle, _) => handle.release(stream),
        Session::Receiving(handle) => handle.release(stream),
        _ => {},
    }
    (Session::Closed, Action::Finish(outcome))
}

/// Decides what follows once the bytes of the last action have been written.
fn proceed(session: Session, stream: &mut Stream) -> (r: (Session, Action))
    ensures
        (r.0@, r.1@, final(stream)@) == written(session@, old(stream)@),
        stays_tuned(session, r.0, old(stream)@, *final(stream)),
        crate::stream::feeds_on(*old(stream), *final(stream)),
{
    match session {
        Session::Greeting => (Session::Listening(stream.listen()), Action::Await),
        Session::Relaying(listener) => (Session::Listening(listener), Action::Await),
        Session::Accepting(handle, metadata) => {
            stream.store_stream(Some(metadata));
            (Session::Receiving(handle), Action::Read)
        },
        Session::Refusing(handle, e) => end(Session::Receiving(handle), Err(e), stream),
        Session::Reporting => (
            Session::Describing,
            Action::Describe(stream.metadata().snapshot()),
        ),
        Session::Replying(outcome) => end(Session::Closed, outcome, stream),
        other => end(other, Ok(()), stream),
    }
}

/// What the first bytes of a connection tell: nothing came, or a request; there
/// is no answer where headers follow a request line that no request can be made
/// of.
pub open spec fn opening_event(bytes: Seq<u8>) -> Option<EventView> {
    if bytes.len() == 0 {
        Some(EventView::Received(bytes))
    } else {
        match crate::request::request_read(bytes) {
            Some(r) => Some(EventView::Requested(r)),
            None => None,
        }
    }
}

impl Event {
    /// What the first bytes of a connection tell. There is no answer where headers
    /// follow a request line that no request can be made of.
    pub fn opening(bytes: Vec<u8>) -> (r: Option<Event>)
        ensures
            (match r {
                Some(event) => Some(event@),
                None => None,
            }) == opening_event(bytes@),
            r matches Some(event) ==> SessionView::Opened.expects(event@),
            r matches Some(Event::Requested(Ok(req))) ==> crate::request::targets(bytes@, req@),
    {
        if bytes.len() == 0 {
            Some(Event::Received(bytes))
        } else {
            match read_request(bytes.as_slice()) {
                Some(r) => Some(Event::Requested(r)),
                None => None,
            }
        }
    }
}

impl Session {
    /// Whether the event can happen at this point.
    pub fn expects(&self, event: &Event) -> (r: bool)
        ensures
            r == self@.expects(event@),
    {
        match event {
            Event::Requested(_) => matches!(self, Session::Opened),
            Event::Received(bytes) => match self {
                Session::Receiving(_) => true,
                Session::Opened => bytes.len() == 0,
                _ => false,
            },
            Event::Written => match self {
                Session::Greeting => true,
                Session::Relaying(_) => true,
                Session::Accepting(_, _) => true,
                Session::Refusing(_, _) => true,
                Session::Reporting => true,
                Session::Describing => true,
                Session::Replying(_) => true,
                _ => false,
            },
            Event::Chunk(_) => matches!(self, Session::Listening(_)),
            Event::Unwritable(_) => matches!(self, Session::Describing),
            Event::Failed(_) => !matches!(self, Session::Closed),
        }
    }
}

/// Decides what follows an event on a connection.
pub fn process(session: Session, event: Event, stream: &mut Stream) -> (r: (Session, Action))
    requires
        session@.expects(event@),
        old(stream)@.wf(),
    ensures
        (r.0@, r.1@, final(stream)@) == stepped(session@, event@, old(stream)@),
        final(stream)@.wf(),
        stays_tuned(session, r.0, old(stream)@, *final(stream)),
        crate::stream::feeds_on(*old(stream), *final(stream)),
        event@ matches EventView::Requested(Ok(req)) ==> texts_kept(req, r.0@),
{
    match event {
        Event::Requested(Ok(req)) => route(req, stream),
        Event::Requested(Err(e)) => end(session, Err(e), stream),
        Event::Received(bytes) => match session {
            Session::Receiving(handle) => if bytes.len() > 0 {
                match handle.send(stream, bytes) {
                    Ok(()) => (Session::Receiving(handle), Action::Read),
                    Err(e) => end(
                        Session::Receiving(handle),
                        Err(HandlerError::StreamDisconnected(e)),
                        stream,
                    ),
                }
            } else {
                stream.store_stream(None);
                stream.store_track(None);
                end(Session::Receiving(handle), Ok(()), stream)
            },
            other => end(other, Ok(()), stream),
        },
        Event::Written => proceed(session, stream),
        Event::Chunk(chunk) => match (session, chunk) {
            (Session::Listening(listener), Some(chunk)) => (
                Session::Relaying(listener),
                Action::Write(chunk),
            ),
            (other, _) => (other, Action::Await),
        },
        Event::Unwritable(e) => end(session, Err(HandlerError::JsonWriteError(e)), stream),
        Event::Failed(e) => end(session, Err(HandlerError::IoError(e)), stream),
    }
}

} // verus!
