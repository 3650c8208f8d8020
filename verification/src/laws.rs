//! What holds of the server as a whole.

use crate::error::HandlerErrorView;
use crate::handler::{ActionView, EventView, SessionView};
use crate::metadata::{StreamMetadataView, TrackMetadataView};
use crate::queue::Subscriber;
use crate::request::{ParsedView, RequestView, UriView};
use crate::stream::StreamView;
use vstd::prelude::*;

verus! {

/// The number of connections that hold the right to send.
pub open spec fn senders(sessions: Seq<SessionView>) -> nat
    decreases sessions.len(),
{
    if sessions.len() == 0 {
        0
    } else {
        senders(sessions.drop_last()) + if sessions.last().sends() {
            1nat
        } else {
            0nat
        }
    }
}

/// The number of connections that listen.
pub open spec fn audience(sessions: Seq<SessionView>) -> nat
    decreases sessions.len(),
{
    if sessions.len() == 0 {
        0
    } else {
        audience(sessions.drop_last()) + if sessions.last().listens() {
            1nat
        } else {
            0nat
        }
    }
}

/// The stream and its connections agree: one connection holds the right to send
/// if the stream is taken and none else, and the count of the listeners is that of
/// the connections that listen, as far as it can count.
pub open spec fn agree(sessions: Seq<SessionView>, stream: StreamView) -> bool {
    &&& stream.wf()
    &&& senders(sessions) == if stream.broadcasting {
        1nat
    } else {
        0nat
    }
    &&& stream.metadata.listeners as int == audience(sessions) as int % (u64::MAX + 1)
}

proof fn lemma_update_counts(sessions: Seq<SessionView>, i: int, next: SessionView)
    requires
        0 <= i < sessions.len(),
    ensures
        senders(sessions.update(i, next)) == senders(sessions) - (if sessions[i].sends() {
            1int
        } else {
            0
        }) + (if next.sends() {
            1int
        } else {
            0
        }),
        audience(sessions.update(i, next)) == audience(sessions) - (if sessions[i].listens() {
            1int
        } else {
            0
        }) + (if next.listens() {
            1int
        } else {
            0
        }),
    decreases sessions.len(),
{
    let after = sessions.update(i, next);
    if i == sessions.len() - 1 {
        assert(after.drop_last() =~= sessions.drop_last());
    } else {
        assert(after.drop_last() =~= sessions.drop_last().update(i, next));
        lemma_update_counts(sessions.drop_last(), i, next);
    }
}

proof fn lemma_count_positive(sessions: Seq<SessionView>, i: int)
    requires
        0 <= i < sessions.len(),
    ensures
        sessions[i].sends() ==> senders(sessions) > 0,
        sessions[i].listens() ==> audience(sessions) > 0,
    decreases sessions.len(),
{
    if i < sessions.len() - 1 {
        lemma_count_positive(sessions.drop_last(), i);
    }
}

proof fn lemma_two_senders(sessions: Seq<SessionView>, i: int, j: int)
    requires
        0 <= i < j < sessions.len(),
        sessions[i].sends(),
        sessions[j].sends(),
    ensures
        senders(sessions) >= 2,
    decreases sessions.len(),
{
    if j == sessions.len() - 1 {
        lemma_count_positive(sessions.drop_last(), i);
    } else {
        lemma_two_senders(sessions.drop_last(), i, j);
    }
}

/// A stream that has just been set up agrees with having no connections.
pub proof fn law_agree_at_start(stream: StreamView)
    requires
        stream.wf(),
        !stream.broadcasting,
        stream.metadata == crate::metadata::nothing_known(),
    ensures
        agree(Seq::empty(), stream),
{
}

/// A new connection keeps the agreement.
pub proof fn law_agree_when_opened(sessions: Seq<SessionView>, stream: StreamView)
    requires
        agree(sessions, stream),
    ensures
        agree(sessions.push(SessionView::Opened), stream),
{
    assert(sessions.push(SessionView::Opened).drop_last() =~= sessions);
}

/// A connection that is over can be forgotten: the agreement is kept.
pub proof fn law_agree_when_forgotten(sessions: Seq<SessionView>, stream: StreamView, i: int)
    requires
        agree(sessions, stream),
        0 <= i < sessions.len(),
        sessions[i] is Closed,
    ensures
        agree(sessions.remove(i), stream),
{
    lemma_remove_counts(sessions, i);
}

proof fn lemma_remove_counts(sessions: Seq<SessionView>, i: int)
    requires
        0 <= i < sessions.len(),
        sessions[i] is Closed,
    ensures
        senders(sessions.remove(i)) == senders(sessions),
        audience(sessions.remove(i)) == audience(sessions),
    decreases sessions.len(),
{
    let after = sessions.remove(i);
    if i == sessions.len() - 1 {
        assert(after =~= sessions.drop_last());
    } else {
        assert(after.drop_last() =~= sessions.drop_last().remove(i));
        lemma_remove_counts(sessions.drop_last(), i);
    }
}

/// Whatever happens on whichever connection, the agreement is kept.
pub proof fn law_agree_kept(
    sessions: Seq<SessionView>,
    stream: StreamView,
    i: int,
    event: EventView,
)
    requires
        agree(sessions, stream),
        0 <= i < sessions.len(),
        sessions[i].expects(event),
    ensures
        ({
            let (next, action, after) = crate::handler::stepped(sessions[i], event, stream);
            agree(sessions.update(i, next), after)
        }),
{
    let (next, action, after) = crate::handler::stepped(sessions[i], event, stream);
    lemma_update_counts(sessions, i, next);
    lemma_count_positive(sessions, i);
}

/// No two connections hold the right to send at one time.
pub proof fn law_one_source(sessions: Seq<SessionView>, stream: StreamView, i: int, j: int)
    requires
        agree(sessions, stream),
        0 <= i < j < sessions.len(),
    ensures
        !(sessions[i].sends() && sessions[j].sends()),
{
    if sessions[i].sends() && sessions[j].sends() {
        lemma_two_senders(sessions, i, j);
    }
}

/// A source that asks for the stream while another one holds it is refused, and
/// the stream stays as it is.
pub proof fn law_second_source_refused(req: RequestView, stream: StreamView)
    requires
        stream.wf(),
        stream.broadcasting,
        req.uri.path == "/stream"@,
    ensures
        crate::handler::routed(req, stream) == (
            SessionView::Replying(Err(HandlerErrorView::StreamAlreadyConnected)),
            ActionView::Write(crate::handler::occupied_answer()),
            stream,
        ),
{
    lemma_paths(stream);
}

/// The path of the listeners is none of the other paths.
proof fn lemma_paths(stream: StreamView)
    requires
        stream.wf(),
    ensures
        stream.listen_uri != "/stream"@,
        stream.listen_uri != "/metadata"@,
        stream.listen_uri != "/admin/metadata"@,
        "/stream"@ != "/metadata"@,
        "/stream"@ != "/admin/metadata"@,
        "/metadata"@ != "/admin/metadata"@,
{
    reveal_strlit("/listen.mp3");
    reveal_strlit("/listen.ogg");
    reveal_strlit("/stream");
    reveal_strlit("/metadata");
    reveal_strlit("/admin/metadata");
    assert("/listen.mp3"@.len() == 11 && "/listen.ogg"@.len() == 11);
    assert("/stream"@.len() == 7 && "/metadata"@.len() == 9 && "/admin/metadata"@.len() == 15);
}

/// A source whose content type is not that of the stream is refused: it is told
/// the right one, and once it has been told the stream is free again and as it was.
pub proof fn law_wrong_content_type_refused(req: RequestView, stream: StreamView)
    requires
        stream.wf(),
        !stream.broadcasting,
        req.uri.path == "/stream"@,
        crate::request::header_or_empty(req.headers, "content-type"@)
            != vstd::utf8::encode_utf8(stream.content_type.source),
    ensures
        ({
            let (session, action, taken) = crate::handler::routed(req, stream);
            let e = HandlerErrorView::UnsupportedContentType {
                actual: crate::metadata::utf8_lossy(
                    crate::request::header_or_empty(req.headers, "content-type"@),
                ),
                expected: stream.content_type.source,
            };
            &&& action == ActionView::Write(
                crate::handler::source_answer(
                    403,
                    "Content-Type must be "@ + stream.content_type.source,
                ),
            )
            &&& crate::handler::stepped(session, EventView::Written, taken) == (
                SessionView::Closed,
                ActionView::Finish(Err(e)),
                stream,
            )
        }),
{
    lemma_paths(stream);
}

/// A source whose content type is that of the stream, byte for byte, is given the
/// stream if it is free, and told to go on: with the status that it waits for, if
/// it says that it waits.
pub proof fn law_right_content_type_accepted(req: RequestView, stream: StreamView)
    requires
        stream.wf(),
        !stream.broadcasting,
        req.uri.path == "/stream"@,
        crate::request::header_or_empty(req.headers, "content-type"@)
            == vstd::utf8::encode_utf8(stream.content_type.source),
    ensures
        crate::handler::routed(req, stream) == (
            SessionView::Accepting(crate::metadata::described(req.headers)),
            ActionView::Write(invitation(req)),
            stream.with_broadcasting(true),
        ),
{
    lemma_paths(stream);
}

/// The answer to a source that may send.
pub open spec fn invitation(req: RequestView) -> Seq<u8> {
    if crate::request::header_or_empty(req.headers, "expect"@) == vstd::utf8::encode_utf8(
        "100-continue"@,
    ) {
        crate::handler::source_answer(100, "Continue"@)
    } else {
        crate::handler::source_answer(200, "OK"@)
    }
}

/// A request for a path that is not served is answered with the status for that,
/// and ends with an error that names the request; the stream stays as it is.
pub proof fn law_unknown_path_refused(req: RequestView, stream: StreamView)
    requires
        req.uri.path != stream.listen_uri,
        req.uri.path != "/stream"@,
        req.uri.path != "/metadata"@,
        req.uri.path != "/admin/metadata"@,
    ensures
        ({
            let (session, action, after) = crate::handler::routed(req, stream);
            &&& action == ActionView::Write(crate::handler::unknown_answer())
            &&& crate::handler::stepped(session, EventView::Written, after) == (
                SessionView::Closed,
                ActionView::Finish(
                    Err(HandlerErrorView::EndpointNotFound(req)),
                ),
                stream,
            )
        }),
{
}

/// Listening, asking for the metadata and asking for what is not served leave the
/// stream as it is.
pub proof fn law_asking_changes_nothing(req: RequestView, stream: StreamView)
    requires
        req.uri.path != "/stream"@,
        req.uri.path != "/admin/metadata"@,
    ensures
        crate::handler::routed(req, stream).2 == stream,
{
}

/// Whatever happens, the settings of the stream stay as they were set up.
pub proof fn law_settings_kept(session: SessionView, event: EventView, stream: StreamView)
    ensures
        ({
            let after = crate::handler::stepped(session, event, stream).2;
            &&& after.content_type == stream.content_type
            &&& after.listen_uri == stream.listen_uri
            &&& after.bitrate == stream.bitrate
            &&& after.max_conns == stream.max_conns
            &&& after.password == stream.password
            &&& after.buffer_size == stream.buffer_size
        }),
{
}

/// Nothing but what a source sends goes to the queue, and nothing leaves the order
/// in which it was sent.
pub proof fn law_only_sources_send(session: SessionView, event: EventView, stream: StreamView)
    requires
        session.expects(event),
    ensures
        crate::handler::stepped(session, event, stream).2.sent == match event {
            EventView::Received(bytes) => if bytes.len() > 0 {
                stream.sent.push(bytes)
            } else {
                stream.sent
            },
            _ => stream.sent,
        },
        !session.sends() ==> crate::handler::stepped(session, event, stream).2.sent == stream.sent,
{
}

/// A connection is closed when its outcome is known, and only then; it then
/// neither listens nor holds the right to send.
pub proof fn law_end_lets_go(session: SessionView, event: EventView, stream: StreamView)
    ensures
        ({
            let (next, action, after) = crate::handler::stepped(session, event, stream);
            &&& action is Finish <==> next is Closed
            &&& next is Closed ==> !next.listens() && !next.sends()
        }),
{
}

/// Whether the event is an answer to the action.
pub open spec fn answers(event: EventView, action: ActionView) -> bool {
    match action {
        ActionView::Read => event is Received || event is Failed,
        ActionView::Write(_) => event is Written || event is Failed,
        ActionView::Describe(_) => event is Written || event is Unwritable || event is Failed,
        ActionView::Await => event is Chunk,
        ActionView::Finish(_) => false,
    }
}

/// Every answer to what a connection asks for is one that it can go on with.
pub proof fn law_answers_expected(
    session: SessionView,
    event: EventView,
    stream: StreamView,
    answer: EventView,
)
    requires
        session.expects(event),
        answers(answer, crate::handler::stepped(session, event, stream).1),
    ensures
        crate::handler::stepped(session, event, stream).0.expects(answer),
{
}

/// One who comes to listen and leaves again, at whatever point, leaves the stream
/// as it was.
pub proof fn law_listener_leaves_no_trace(stream: StreamView, failure: Seq<char>)
    ensures
        ({
            let (listening, _, during) = crate::handler::stepped(
                SessionView::Greeting,
                EventView::Written,
                stream,
            );
            &&& listening is Listening
            &&& during.metadata.listeners == crate::stream::one_more(stream.metadata.listeners)
            &&& crate::handler::stepped(listening, EventView::Failed(failure), during).2 == stream
            &&& crate::handler::stepped(
                SessionView::Relaying,
                EventView::Failed(failure),
                during,
            ).2 == stream
        }),
{
}

/// A source that closes its connection leaves the stream free, with nothing known
/// of a source or a track, and with its listeners.
pub proof fn law_source_leaves(stream: StreamView)
    ensures
        crate::handler::stepped(
            SessionView::Receiving,
            EventView::Received(seq![]),
            stream,
        ) == (
            SessionView::Closed,
            ActionView::Finish(Ok(())),
            stream.with_stream(None).with_track(None).with_broadcasting(false),
        ),
{
}

/// A source that is cut off leaves the stream free, and what is known of it stays.
pub proof fn law_source_cut_off(session: SessionView, stream: StreamView, failure: Seq<char>)
    requires
        session.sends(),
    ensures
        crate::handler::stepped(session, EventView::Failed(failure), stream) == (
            SessionView::Closed,
            ActionView::Finish(Err(HandlerErrorView::IoError(failure))),
            stream.with_broadcasting(false),
        ),
{
}

/// The session, the actions and the stream after a number of events.
pub open spec fn run(session: SessionView, events: Seq<EventView>, stream: StreamView) -> (
    SessionView,
    Seq<ActionView>,
    StreamView,
)
    decreases events.len(),
{
    if events.len() == 0 {
        (session, seq![], stream)
    } else {
        let (before, actions, so_far) = run(session, events.drop_last(), stream);
        let (after, action, then) = crate::handler::stepped(before, events.last(), so_far);
        (after, actions.push(action), then)
    }
}

/// The events on the connection of a source that sends chunks.
pub open spec fn sending(chunks: Seq<Seq<u8>>) -> Seq<EventView> {
    Seq::new(chunks.len(), |i: int| EventView::Received(chunks[i]))
}

/// What is done on the connection of a source that sends a number of chunks.
pub open spec fn readings(n: nat) -> Seq<ActionView> {
    Seq::new(n, |i: int| ActionView::Read)
}

/// What a source sends goes to the queue, chunk by chunk, in its order and byte
/// for byte; and nothing else happens.
pub proof fn law_all_published(chunks: Seq<Seq<u8>>, stream: StreamView)
    requires
        forall|i: int| 0 <= i < chunks.len() ==> (#[trigger] chunks[i]).len() > 0,
    ensures
        run(SessionView::Receiving, sending(chunks), stream) == (
            SessionView::Receiving,
            readings(chunks.len()),
            stream.with_sent(stream.sent + chunks),
        ),
    decreases chunks.len(),
{
    let events = sending(chunks);
    if chunks.len() == 0 {
        assert(readings(0) =~= seq![]);
        assert(stream.sent + chunks =~= stream.sent);
    } else {
        let fewer = chunks.drop_last();
        law_all_published(fewer, stream);
        assert(events.drop_last() =~= sending(fewer));
        assert(events.last() == EventView::Received(chunks.last()));
        assert(chunks.last() == chunks[chunks.len() - 1]);
        assert((stream.sent + fewer).push(chunks.last()) =~= stream.sent + chunks);
        assert(readings(fewer.len()).push(ActionView::Read) =~= readings(chunks.len()));
    }
}

/// The events on the connection of a listener to whom chunks come from the queue.
pub open spec fn hearing(chunks: Seq<Seq<u8>>) -> Seq<EventView> {
    Seq::new(
        2 * chunks.len(),
        |i: int|
            if i % 2 == 0 {
                EventView::Chunk(Some(chunks[i / 2]))
            } else {
                EventView::Written
            },
    )
}

/// What is done on the connection of a listener to whom chunks come.
pub open spec fn relays(chunks: Seq<Seq<u8>>) -> Seq<ActionView> {
    Seq::new(
        2 * chunks.len(),
        |i: int|
            if i % 2 == 0 {
                ActionView::Write(chunks[i / 2])
            } else {
                ActionView::Await
            },
    )
}

/// What comes from the queue is written to the listener, chunk by chunk, in its
/// order and byte for byte; and nothing else happens.
pub proof fn law_all_heard(chunks: Seq<Seq<u8>>, stream: StreamView)
    ensures
        run(SessionView::Listening, hearing(chunks), stream) == (
            SessionView::Listening,
            relays(chunks),
            stream,
        ),
    decreases chunks.len(),
{
    let events = hearing(chunks);
    let actions = relays(chunks);
    if chunks.len() == 0 {
        assert(actions =~= seq![]);
    } else {
        let fewer = chunks.drop_last();
        law_all_heard(fewer, stream);
        assert(events.drop_last().drop_last() =~= hearing(fewer));
        assert(events.drop_last().last() == EventView::Chunk(Some(chunks.last())));
        let so_far = run(SessionView::Listening, hearing(fewer), stream);
        assert(run(SessionView::Listening, events.drop_last(), stream) == (
            SessionView::Relaying,
            so_far.1.push(ActionView::Write(chunks.last())),
            stream,
        ));
        assert(run(SessionView::Listening, events, stream).1 =~= actions);
    }
}

/// The bytes that are written by a number of actions.
pub open spec fn bytes_written(actions: Seq<ActionView>) -> Seq<u8>
    decreases actions.len(),
{
    if actions.len() == 0 {
        seq![]
    } else {
        match actions.last() {
            ActionView::Write(bytes) => bytes_written(actions.drop_last()) + bytes,
            _ => bytes_written(actions.drop_last()),
        }
    }
}

/// What is written of chunks that come one by one.
proof fn lemma_bytes_written(chunks: Seq<Seq<u8>>)
    ensures
        bytes_written(relays(chunks)) == chunks.flatten_alt(),
    decreases chunks.len(),
{
    if chunks.len() > 0 {
        let actions = relays(chunks);
        lemma_bytes_written(chunks.drop_last());
        assert(actions.last() == ActionView::Await);
        assert(actions.drop_last().last() == ActionView::Write(chunks.last()));
        assert(actions.drop_last().drop_last() =~= relays(chunks.drop_last()));
        assert(bytes_written(actions) == bytes_written(actions.drop_last()));
    }
}

/// A listener that keeps up hears what the source sends: the bytes that are
/// written to a listener, to whom the queue hands what a source sends, are those
/// that came from the source, in their order.
pub proof fn law_heard_as_sent(chunks: Seq<Seq<u8>>, stream: StreamView, heard_from: StreamView)
    requires
        forall|i: int| 0 <= i < chunks.len() ==> (#[trigger] chunks[i]).len() > 0,
    ensures
        ({
            let after = run(SessionView::Receiving, sending(chunks), stream).2;
            let queued = after.sent.skip(stream.sent.len() as int);
            bytes_written(run(SessionView::Listening, hearing(queued), heard_from).1)
                == chunks.flatten_alt()
        }),
{
    law_all_published(chunks, stream);
    assert((stream.sent + chunks).skip(stream.sent.len() as int) =~= chunks);
    law_all_heard(chunks, heard_from);
    lemma_bytes_written(chunks);
}

/// One who joins the stream hears first what the queue holds: those are the bytes
/// that are written while the backlog is handed out. They are the newest chunks, as
/// many as wait for slow listeners, where any wait and no more were sent than a
/// `usize` can count.
pub proof fn law_newcomer_hears_newest(subscriber: Subscriber, stream: StreamView)
    requires
        crate::stream::joined(subscriber, stream),
    ensures
        bytes_written(
            run(SessionView::Listening, hearing(crate::queue::backlog(subscriber)), stream).1,
        ) == crate::queue::held(stream.sent, stream.buffer_size).flatten_alt(),
        stream.buffer_size > 0 && stream.sent.len() <= usize::MAX ==> crate::queue::held(
            stream.sent,
            stream.buffer_size,
        ) == crate::queue::newest(stream.sent, stream.buffer_size as int),
{
    let chunks = crate::queue::backlog(subscriber);
    law_all_heard(chunks, stream);
    lemma_bytes_written(chunks);
    if stream.buffer_size > 0 && stream.sent.len() <= usize::MAX {
        crate::queue::lemma_held(stream.sent, stream.buffer_size);
    }
}

/// Listeners hear the same: one who joins the stream, and another who joins after
/// the first has heard any number of chunks but before anything more is sent, have
/// the same backlog. Where a source then sends chunks and the queue hands them to
/// both, the same is done for both, and the bytes that are written to each are those
/// of the backlog and of what the source sent, in their order.
pub proof fn law_listeners_hear_alike(
    first: Subscriber,
    second: Subscriber,
    stream: StreamView,
    heard: Seq<Seq<u8>>,
    later: Seq<Seq<u8>>,
)
    requires
        crate::stream::joined(first, stream),
        crate::stream::joined(second, with_listener(heard, stream)),
        forall|i: int| 0 <= i < later.len() ==> (#[trigger] later[i]).len() > 0,
    ensures
        crate::queue::backlog(first) == crate::queue::backlog(second),
        ({
            let after = run(SessionView::Receiving, sending(later), stream).2;
            let queued = after.sent.skip(stream.sent.len() as int);
            let one = run(
                SessionView::Listening,
                hearing(crate::queue::backlog(first) + queued),
                after,
            ).1;
            let other = run(
                SessionView::Listening,
                hearing(crate::queue::backlog(second) + queued),
                after,
            ).1;
            &&& one == other
            &&& bytes_written(one) == (crate::queue::held(stream.sent, stream.buffer_size)
                + later).flatten_alt()
        }),
{
    let during = stream.with_listeners(crate::stream::one_more(stream.metadata.listeners));
    law_all_heard(heard, during);
    law_all_published(later, stream);
    assert((stream.sent + later).skip(stream.sent.len() as int) =~= later);
    let chunks = crate::queue::backlog(first) + later;
    law_all_heard(chunks, stream.with_sent(stream.sent + later));
    lemma_bytes_written(chunks);
}

/// The stream once a listener has joined it and has heard a number of chunks.
pub open spec fn with_listener(heard: Seq<Seq<u8>>, stream: StreamView) -> StreamView {
    let (listening, _, during) = crate::handler::stepped(
        SessionView::Greeting,
        EventView::Written,
        stream,
    );
    run(listening, hearing(heard), during).2
}

/// Events one behind the other: the second part goes on where the first one ends.
proof fn lemma_run_on(
    session: SessionView,
    first: Seq<EventView>,
    second: Seq<EventView>,
    stream: StreamView,
)
    ensures
        ({
            let (between, actions, so_far) = run(session, first, stream);
            let (after, more, then) = run(between, second, so_far);
            run(session, first + second, stream) == (after, actions + more, then)
        }),
    decreases second.len(),
{
    let (between, actions, so_far) = run(session, first, stream);
    if second.len() == 0 {
        assert(first + second =~= first);
        assert(actions + seq![] =~= actions);
    } else {
        let all = first + second;
        assert(all.drop_last() =~= first + second.drop_last());
        lemma_run_on(session, first, second.drop_last(), stream);
        assert(run(session, all, stream).1 =~= actions + run(between, second, so_far).1);
    }
}

/// A run of one event.
proof fn lemma_run_one(session: SessionView, event: EventView, stream: StreamView)
    ensures
        ({
            let (after, action, then) = crate::handler::stepped(session, event, stream);
            run(session, seq![event], stream) == (after, seq![action], then)
        }),
{
    assert(seq![event].drop_last() =~= seq![]);
    assert(run(session, seq![], stream) == (session, Seq::<ActionView>::empty(), stream));
    assert(run(session, seq![event], stream).1 =~= seq![
        crate::handler::stepped(session, event, stream).1,
    ]);
}

/// A whole broadcast: a source with the right content type finds the stream free,
/// sends its chunks and closes its connection. It is answered, every chunk goes to
/// the queue, the outcome is a success, and the stream is free again with nothing
/// known of a source or a track.
pub proof fn law_whole_broadcast(req: RequestView, chunks: Seq<Seq<u8>>, stream: StreamView)
    requires
        stream.wf(),
        !stream.broadcasting,
        req.uri.path == "/stream"@,
        crate::request::header_or_empty(req.headers, "content-type"@)
            == vstd::utf8::encode_utf8(stream.content_type.source),
        forall|i: int| 0 <= i < chunks.len() ==> (#[trigger] chunks[i]).len() > 0,
    ensures
        run(
            SessionView::Opened,
            seq![EventView::Requested(Ok(req)), EventView::Written] + sending(chunks) + seq![
                EventView::Received(seq![]),
            ],
            stream,
        ) == (
            SessionView::Closed,
            seq![ActionView::Write(invitation(req)), ActionView::Read] + readings(chunks.len())
                + seq![ActionView::Finish(Ok(()))],
            stream.with_sent(stream.sent + chunks).with_stream(None).with_track(None),
        ),
{
    let asked = EventView::Requested(Ok(req));
    let closed = EventView::Received(seq![]);
    let metadata = crate::metadata::described(req.headers);
    let taken = stream.with_broadcasting(true);
    law_right_content_type_accepted(req, stream);
    lemma_run_one(SessionView::Opened, asked, stream);
    lemma_run_one(SessionView::Accepting(metadata), EventView::Written, taken);
    lemma_run_on(SessionView::Opened, seq![asked], seq![EventView::Written], stream);
    let start = seq![asked, EventView::Written];
    assert(seq![asked] + seq![EventView::Written] =~= start);
    let during = taken.with_stream(Some(metadata));
    assert(run(SessionView::Opened, start, stream).1 =~= seq![
        ActionView::Write(invitation(req)),
        ActionView::Read,
    ]);
    law_all_published(chunks, during);
    lemma_run_on(SessionView::Opened, start, sending(chunks), stream);
    let sent = during.with_sent(stream.sent + chunks);
    lemma_run_one(SessionView::Receiving, closed, sent);
    law_source_leaves(sent);
    lemma_run_on(SessionView::Opened, start + sending(chunks), seq![closed], stream);
}

/// A whole visit of a listener: it is answered, every chunk that comes from the
/// queue while it listens is written to it, and when writing fails at last the
/// stream is as it was.
pub proof fn law_whole_visit(
    req: RequestView,
    chunks: Seq<Seq<u8>>,
    stream: StreamView,
    last: Seq<u8>,
    failure: Seq<char>,
)
    requires
        req.uri.path == stream.listen_uri,
    ensures
        run(
            SessionView::Opened,
            seq![EventView::Requested(Ok(req)), EventView::Written] + hearing(chunks) + seq![
                EventView::Chunk(Some(last)),
                EventView::Failed(failure),
            ],
            stream,
        ) == (
            SessionView::Closed,
            seq![
                ActionView::Write(crate::handler::listener_answer(stream.content_type.source)),
                ActionView::Await,
            ] + relays(chunks) + seq![
                ActionView::Write(last),
                ActionView::Finish(Err(HandlerErrorView::IoError(failure))),
            ],
            stream,
        ),
{
    let asked = EventView::Requested(Ok(req));
    let during = stream.with_listeners(crate::stream::one_more(stream.metadata.listeners));
    lemma_run_one(SessionView::Opened, asked, stream);
    lemma_run_one(SessionView::Greeting, EventView::Written, stream);
    lemma_run_on(SessionView::Opened, seq![asked], seq![EventView::Written], stream);
    let start = seq![asked, EventView::Written];
    assert(seq![asked] + seq![EventView::Written] =~= start);
    assert(run(SessionView::Opened, start, stream).1 =~= seq![
        ActionView::Write(crate::handler::listener_answer(stream.content_type.source)),
        ActionView::Await,
    ]);
    law_all_heard(chunks, during);
    lemma_run_on(SessionView::Opened, start, hearing(chunks), stream);
    let chunk = EventView::Chunk(Some(last));
    let failed = EventView::Failed(failure);
    lemma_run_one(SessionView::Listening, chunk, during);
    lemma_run_one(SessionView::Relaying, failed, during);
    lemma_run_on(SessionView::Listening, seq![chunk], seq![failed], during);
    assert(seq![chunk] + seq![failed] =~= seq![chunk, failed]);
    assert(run(SessionView::Listening, seq![chunk, failed], during).1 =~= seq![
        ActionView::Write(last),
        ActionView::Finish(Err(HandlerErrorView::IoError(failure))),
    ]);
    lemma_run_on(SessionView::Opened, start + hearing(chunks), seq![chunk, failed], stream);
}

/// What a source says of itself is what the metadata tell from the moment on when
/// it may send.
pub proof fn law_source_is_described(metadata: StreamMetadataView, stream: StreamView)
    ensures
        ({
            let after = crate::handler::stepped(
                SessionView::Accepting(metadata),
                EventView::Written,
                stream,
            ).2;
            &&& after == stream.with_stream(Some(metadata))
            &&& crate::handler::stepped(SessionView::Reporting, EventView::Written, after).1
                == ActionView::Describe(stream.with_stream(Some(metadata)).metadata)
        }),
{
}

/// What an update says of the track is what the metadata tell from then on.
pub proof fn law_update_is_told(req: RequestView, stream: StreamView, query: Seq<char>)
    requires
        stream.wf(),
        req.uri.path == "/admin/metadata"@,
        req.uri.query == Some(query),
    ensures
        ({
            let track = crate::metadata::track_of(
                crate::metadata::form_pairs(vstd::utf8::encode_utf8(query)),
            );
            let after = crate::handler::routed(req, stream).2;
            &&& after == stream.with_track(Some(track))
            &&& crate::handler::stepped(SessionView::Reporting, EventView::Written, after).1
                == ActionView::Describe(stream.with_track(Some(track)).metadata)
        }),
{
    lemma_paths(stream);
}

/// An update without a query is not answered and changes nothing.
pub proof fn law_empty_update_ignored(req: RequestView, stream: StreamView)
    requires
        stream.wf(),
        req.uri.path == "/admin/metadata"@,
        req.uri.query is None,
    ensures
        crate::handler::routed(req, stream) == (
            SessionView::Closed,
            ActionView::Finish(Ok(())),
            stream,
        ),
{
    lemma_paths(stream);
}

/// Another name and value behind the others: an artist, a title or an album is
/// told in the place of any before it, and nothing else changes.
pub proof fn law_last_value_counts(
    pairs: Seq<(Seq<char>, Seq<char>)>,
    name: Seq<char>,
    value: Seq<char>,
)
    ensures
        ({
            let before = crate::metadata::track_of(pairs);
            crate::metadata::track_of(pairs.push((name, value))) == (TrackMetadataView {
                artist: if name == "artist"@ {
                    Some(value)
                } else {
                    before.artist
                },
                title: if name == "title"@ {
                    Some(value)
                } else {
                    before.title
                },
                album: if name == "album"@ {
                    Some(value)
                } else {
                    before.album
                },
            })
        }),
{
    assert(pairs.push((name, value)).drop_last() =~= pairs);
}

/// A value that has been put into a header map is the one that is found under its
/// name, and what is found under other names stays.
pub proof fn law_inserted_is_found(
    entries: Seq<(Seq<char>, Seq<Seq<u8>>)>,
    name: Seq<char>,
    value: Seq<u8>,
    other: Seq<char>,
)
    ensures
        crate::headers::first_value(crate::headers::inserted(entries, name, value), name) == Some(
            value,
        ),
        other != name ==> crate::headers::first_value(
            crate::headers::inserted(entries, name, value),
            other,
        ) == crate::headers::first_value(entries, other),
{
    let after = crate::headers::inserted(entries, name, value);
    let at = crate::headers::place(entries, name);
    let of_other = crate::headers::place(entries, other);
    crate::headers::lemma_place(entries, name);
    crate::headers::lemma_place(entries, other);
    crate::headers::lemma_found(after, name, at);
    if other != name {
        if of_other < entries.len() {
            crate::headers::lemma_found(after, other, of_other);
        } else {
            crate::headers::lemma_found(after, other, after.len() as int);
        }
    }
}

/// The value of the last field of a name, given in lower case.
pub open spec fn last_field(
    fields: Seq<(Seq<char>, Seq<u8>)>,
    name: Seq<char>,
) -> Option<Seq<u8>>
    decreases fields.len(),
{
    if fields.len() == 0 {
        None
    } else if crate::headers::lower(fields.last().0) == name {
        Some(fields.last().1)
    } else {
        last_field(fields.drop_last(), name)
    }
}

/// Of several headers of one name, whatever the case of its letters, the last one
/// is that of the request.
pub proof fn law_last_header_counts(fields: Seq<(Seq<char>, Seq<u8>)>, name: Seq<char>)
    ensures
        crate::request::collected(fields) matches Ok(entries) ==> crate::headers::first_value(
            entries,
            name,
        ) == last_field(fields, name),
    decreases fields.len(),
{
    if fields.len() > 0 {
        law_last_header_counts(fields.drop_last(), name);
        if let Ok(entries) = crate::request::collected(fields.drop_last()) {
            let (text, value) = fields.last();
            law_inserted_is_found(entries, crate::headers::lower(text), value, name);
        }
    }
}

/// All values of a name, given in lower case: those of every entry of this name.
pub open spec fn values_of(
    entries: Seq<(Seq<char>, Seq<Seq<u8>>)>,
    name: Seq<char>,
) -> Seq<Seq<u8>>
    decreases entries.len(),
{
    if entries.len() == 0 {
        seq![]
    } else if entries.last().0 == name {
        values_of(entries.drop_last(), name) + entries.last().1
    } else {
        values_of(entries.drop_last(), name)
    }
}

/// Each entry has a name of its own and one value.
spec fn one_each(entries: Seq<(Seq<char>, Seq<Seq<u8>>)>) -> bool {
    &&& forall|i: int| 0 <= i < entries.len() ==> (#[trigger] entries[i]).1.len() == 1
    &&& forall|i: int, j: int|
        0 <= i < j < entries.len() ==> (#[trigger] entries[i]).0 != (#[trigger] entries[j]).0
}

/// The entries of a request have names of their own and one value each.
proof fn lemma_one_each(fields: Seq<(Seq<char>, Seq<u8>)>)
    ensures
        crate::request::collected(fields) matches Ok(entries) ==> one_each(entries),
    decreases fields.len(),
{
    if fields.len() > 0 {
        lemma_one_each(fields.drop_last());
        if let Ok(entries) = crate::request::collected(fields.drop_last()) {
            crate::headers::lemma_place(entries, crate::headers::lower(fields.last().0));
        }
    }
}

/// Where no entry has the name, there are no values of it.
proof fn lemma_no_values(entries: Seq<(Seq<char>, Seq<Seq<u8>>)>, name: Seq<char>)
    requires
        forall|i: int| 0 <= i < entries.len() ==> (#[trigger] entries[i]).0 != name,
    ensures
        values_of(entries, name) == Seq::<Seq<u8>>::empty(),
    decreases entries.len(),
{
    if entries.len() > 0 {
        assert(entries.last() == entries[entries.len() - 1]);
        lemma_no_values(entries.drop_last(), name);
    }
}

/// Where names are not repeated, the values of a name are those of its one entry.
proof fn lemma_values(entries: Seq<(Seq<char>, Seq<Seq<u8>>)>, name: Seq<char>, at: int)
    requires
        one_each(entries),
        0 <= at < entries.len(),
        entries[at].0 == name,
    ensures
        values_of(entries, name) == entries[at].1,
    decreases entries.len(),
{
    let fewer = entries.drop_last();
    if at == entries.len() - 1 {
        lemma_no_values(fewer, name);
        assert(values_of(entries, name) =~= entries[at].1);
    } else {
        assert(entries.last() == entries[entries.len() - 1]);
        assert(fewer[at] == entries[at]);
        assert(one_each(fewer));
        lemma_values(fewer, name, at);
    }
}

/// A head is no request exactly where its method or its path is missing, whatever
/// its headers hold.
pub proof fn law_no_request_line_no_request(parsed: ParsedView)
    ensures
        crate::request::converted(parsed) == Err::<RequestView, HandlerErrorView>(
            HandlerErrorView::InvalidHttp,
        ) <==> parsed.method is None || parsed.path is None,
{
}

/// A request that is made of a head has the version of every request, the method of
/// the head and its target; and each header name has exactly one value, that of the
/// last header of this name, whatever the case of its letters, or none where there
/// is no such header.
pub proof fn law_request_made(parsed: ParsedView, name: Seq<char>)
    requires
        crate::request::converted(parsed) is Ok,
    ensures
        ({
            let req = crate::request::converted(parsed)->Ok_0;
            &&& req.version == "HTTP/1.1"@
            &&& parsed.method == Some(req.method)
            &&& parsed.path matches Some(path) && crate::request::http_uri(path) == Ok::<
                UriView,
                Seq<char>,
            >(req.uri)
            &&& values_of(req.headers, crate::headers::lower(name)) == match last_field(
                parsed.headers,
                crate::headers::lower(name),
            ) {
                Some(value) => seq![value],
                None => seq![],
            }
        }),
{
    let req = crate::request::converted(parsed)->Ok_0;
    let name = crate::headers::lower(name);
    law_last_header_counts(parsed.headers, name);
    lemma_one_each(parsed.headers);
    crate::headers::lemma_place(req.headers, name);
    let at = crate::headers::place(req.headers, name);
    if at < req.headers.len() {
        lemma_values(req.headers, name, at);
        assert(req.headers[at].1 =~= seq![req.headers[at].1[0]]);
    } else {
        lemma_no_values(req.headers, name);
    }
}

} // verus!
